use std::collections::HashMap;

use yuque_backup::store::{BackupTime, MainMetadata, MetaItem};
use yuque_backup::timestamp::Timestamp;
use yuque_backup::{DocMeta, RawDocMeta, Repo};

const T1: i128 = 1_700_000_000_000_000_000;
const T2: i128 = 1_700_000_600_000_000_000;
const T3: i128 = 1_700_001_200_000_000_000;

fn book(id: i64, name: &str) -> Repo {
    Repo { id, slug: name.to_lowercase(), name: name.to_string(), updated_at: Timestamp::utc(T1) }
}

fn raw(id: i64, at: i128) -> RawDocMeta {
    RawDocMeta { id, updated_at: Timestamp::utc(at) }
}

fn times(item: &MetaItem) -> Vec<i128> {
    item.backups.iter().map(|t| t.0.unix_nanos).collect()
}

#[test]
fn default_store_is_empty() {
    let store = MainMetadata::default();
    assert!(store.items.is_empty());
    assert!(store.books.is_empty());
}

#[test]
fn unseen_document_needs_backup() {
    let repo = book(1, "Handbook");
    let store = MainMetadata::default();
    assert!(store.needs_backup(&DocMeta::new(&repo, raw(7, T1))));
    assert!(store.needs_backup(&DocMeta::new(&repo, raw(7, i128::MIN))));
}

#[test]
fn tracked_document_needs_no_backup() {
    let repo = book(1, "Handbook");
    let meta = DocMeta::new(&repo, raw(7, T1));
    let mut store = MainMetadata::default();
    store.track_backup(&meta);
    assert!(!store.needs_backup(&meta));
}

#[test]
fn track_backup_creates_record() {
    let repo = book(1, "Handbook");
    let mut store = MainMetadata::default();
    store.track_backup(&DocMeta::new(&repo, raw(7, T1)));
    assert_eq!(store.items.len(), 1);
    let item = &store.items[&7];
    assert_eq!(item.last_updated, BackupTime(Timestamp::utc(T1)));
    assert_eq!(times(item), vec![T1]);
}

#[test]
fn watermark_follows_later_backup() {
    let repo = book(1, "Handbook");
    let mut store = MainMetadata::default();
    store.track_backup(&DocMeta::new(&repo, raw(7, T1)));
    store.track_backup(&DocMeta::new(&repo, raw(7, T2)));
    let item = &store.items[&7];
    assert_eq!(item.last_updated.0.unix_nanos, T2);
    assert_eq!(times(item), vec![T1, T2]);
    assert_eq!(store.items.len(), 1);
}

#[test]
fn watermark_follows_last_backup_even_if_older() {
    let repo = book(1, "Handbook");
    let mut store = MainMetadata::default();
    store.track_backup(&DocMeta::new(&repo, raw(7, T2)));
    store.track_backup(&DocMeta::new(&repo, raw(7, T1)));
    let item = &store.items[&7];
    assert_eq!(item.last_updated.0.unix_nanos, T1);
    assert_eq!(times(item), vec![T2, T1]);
    assert!(store.needs_backup(&DocMeta::new(&repo, raw(7, T2))));
}

#[test]
fn history_keeps_duplicates() {
    let repo = book(1, "Handbook");
    let meta = DocMeta::new(&repo, raw(7, T1));
    let mut store = MainMetadata::default();
    store.track_backup(&meta);
    store.track_backup(&meta);
    assert_eq!(times(&store.items[&7]), vec![T1, T1]);
}

#[test]
fn equal_timestamp_needs_no_backup_newer_does() {
    let repo = book(1, "Handbook");
    let mut store = MainMetadata::default();
    store.track_backup(&DocMeta::new(&repo, raw(7, T2)));
    assert!(!store.needs_backup(&DocMeta::new(&repo, raw(7, T2))));
    assert!(!store.needs_backup(&DocMeta::new(&repo, raw(7, T1))));
    assert!(store.needs_backup(&DocMeta::new(&repo, raw(7, T2 + 1))));
    assert!(store.needs_backup(&DocMeta::new(&repo, raw(7, T3))));
    assert!(store.needs_backup(&DocMeta::new(&repo, raw(8, T1))));
}

#[test]
fn same_instant_at_another_offset_needs_no_backup() {
    let repo = book(1, "Handbook");
    let mut store = MainMetadata::default();
    store.track_backup(&DocMeta::new(&repo, raw(7, T2)));
    let shifted = RawDocMeta { id: 7, updated_at: Timestamp::new(T2, 8 * 3600) };
    assert!(!store.needs_backup(&DocMeta::new(&repo, shifted)));
}

#[test]
fn track_backup_keeps_written_offset() {
    let repo = book(1, "Handbook");
    let mut store = MainMetadata::default();
    let shifted = RawDocMeta { id: 7, updated_at: Timestamp::new(T2, -5 * 3600) };
    store.track_backup(&DocMeta::new(&repo, shifted));
    assert_eq!(store.items[&7].last_updated.0.offset_seconds, -5 * 3600);
    assert_eq!(store.items[&7].backups[0].0.offset_seconds, -5 * 3600);
}

#[test]
fn track_backup_leaves_other_records_and_books() {
    let repo = book(1, "Handbook");
    let mut store = MainMetadata::default();
    store.register_books(&vec![book(1, "Handbook")]);
    store.track_backup(&DocMeta::new(&repo, raw(7, T1)));
    store.track_backup(&DocMeta::new(&repo, raw(8, T2)));
    assert_eq!(times(&store.items[&7]), vec![T1]);
    assert_eq!(times(&store.items[&8]), vec![T2]);
    assert_eq!(store.books.len(), 1);
    assert_eq!(store.books[&1].name, "Handbook");
}

#[test]
fn register_books_overwrites_by_id() {
    let mut store = MainMetadata::default();
    store.register_books(&vec![book(1, "Old"), book(2, "Guide")]);
    store.register_books(&vec![book(1, "New"), book(3, "Notes"), book(3, "Notes2")]);
    assert_eq!(store.books.len(), 3);
    assert_eq!(store.books[&1].name, "New");
    assert_eq!(store.books[&1].slug, "new");
    assert_eq!(store.books[&2].name, "Guide");
    assert_eq!(store.books[&3].name, "Notes2");
    assert!(store.items.is_empty());
}

#[test]
fn register_books_does_not_affect_needs_backup() {
    let repo = book(1, "Handbook");
    let meta = DocMeta::new(&repo, raw(7, T1));
    let mut store = MainMetadata::default();
    store.track_backup(&meta);
    store.register_books(&vec![book(7, "Seven"), book(1, "Handbook")]);
    assert!(!store.needs_backup(&meta));
    assert!(store.needs_backup(&DocMeta::new(&repo, raw(1, T1))));
}

#[test]
fn pending_keeps_order_and_drops_backed_up() {
    let repo = book(1, "Handbook");
    let mut store = MainMetadata::default();
    store.track_backup(&DocMeta::new(&repo, raw(2, T2)));
    let listed = vec![
        DocMeta::new(&repo, raw(3, T1)),
        DocMeta::new(&repo, raw(2, T2)),
        DocMeta::new(&repo, raw(1, T3)),
        DocMeta::new(&repo, raw(2, T3)),
    ];
    let ids: Vec<(i64, i128)> =
        store.pending(&listed).iter().map(|m| (m.id(), m.updated_at().unix_nanos)).collect();
    assert_eq!(ids, vec![(3, T1), (1, T3), (2, T3)]);
    assert!(store.pending(&Vec::new()).is_empty());
}

#[test]
fn failed_documents_stay_pending() {
    let repo = book(1, "Handbook");
    let mut store = MainMetadata::default();
    let outcomes = vec![
        (DocMeta::new(&repo, raw(1, T1)), true),
        (DocMeta::new(&repo, raw(2, T2)), false),
        (DocMeta::new(&repo, raw(3, T3)), true),
        (DocMeta::new(&repo, raw(4, T1)), false),
    ];
    store.track_stored(&outcomes);
    assert_eq!(store.items.len(), 2);
    assert_eq!(times(&store.items[&1]), vec![T1]);
    assert_eq!(times(&store.items[&3]), vec![T3]);
    assert!(!store.needs_backup(&outcomes[0].0));
    assert!(store.needs_backup(&outcomes[1].0));
    assert!(!store.needs_backup(&outcomes[2].0));
    assert!(store.needs_backup(&outcomes[3].0));
}

#[test]
fn failed_document_keeps_earlier_record() {
    let repo = book(1, "Handbook");
    let mut store = MainMetadata::default();
    store.track_backup(&DocMeta::new(&repo, raw(2, T1)));
    store.track_stored(&vec![(DocMeta::new(&repo, raw(2, T2)), false)]);
    assert_eq!(store.items[&2].last_updated.0.unix_nanos, T1);
    assert_eq!(times(&store.items[&2]), vec![T1]);
    assert!(store.needs_backup(&DocMeta::new(&repo, raw(2, T2))));
}

#[test]
fn first_run_backs_up_both_documents() {
    let repo = book(1, "Handbook");
    let mut store = MainMetadata::default();
    store.register_books(&vec![book(1, "Handbook")]);
    let listed = yuque_backup::net::bind_doc_metas(&repo, &vec![raw(1, T1), raw(2, T2)]);
    let pending = store.pending(&listed);
    assert_eq!(pending.iter().map(|m| m.id()).collect::<Vec<_>>(), vec![1, 2]);
    let outcomes: Vec<(DocMeta<'_>, bool)> = pending.into_iter().map(|m| (m, true)).collect();
    store.track_stored(&outcomes);
    assert_eq!(store.items.len(), 2);
    assert_eq!(store.items[&1].last_updated.0.unix_nanos, T1);
    assert_eq!(times(&store.items[&1]), vec![T1]);
    assert_eq!(store.items[&2].last_updated.0.unix_nanos, T2);
    assert_eq!(times(&store.items[&2]), vec![T2]);
}

#[test]
fn rerun_fetches_only_the_new_document() {
    let repo = book(1, "Handbook");
    let mut items = HashMap::new();
    items.insert(
        1,
        MetaItem {
            last_updated: BackupTime(Timestamp::utc(T1)),
            backups: vec![BackupTime(Timestamp::utc(T1))],
        },
    );
    let mut store = MainMetadata { items, books: HashMap::new() };
    let listed = yuque_backup::net::bind_doc_metas(&repo, &vec![raw(1, T1), raw(2, T2)]);
    let pending = store.pending(&listed);
    assert_eq!(pending.len(), 1);
    assert_eq!(pending[0].id(), 2);
    let outcomes: Vec<(DocMeta<'_>, bool)> = pending.into_iter().map(|m| (m, true)).collect();
    store.track_stored(&outcomes);
    assert_eq!(times(&store.items[&1]), vec![T1]);
    assert_eq!(times(&store.items[&2]), vec![T2]);
}
