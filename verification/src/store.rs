//! The backup store: for each document, the newest version known to be backed
//! up and the history of its backups; and the index of books seen.

use crate::timestamp::Timestamp;
use crate::{DocMeta, RawDocMeta, Repo, RepoView};
use std::collections::HashMap;
use vstd::prelude::*;

verus! {

/// The time of the version of a document that a backup holds.
#[derive(Clone, Copy, Debug, PartialEq, Eq, PartialOrd)]
pub struct BackupTime(pub Timestamp);

/// The backups of one document.
#[derive(Debug)]
pub struct MetaItem {
    /// The watermark: the newest version that was backed up.
    pub last_updated: BackupTime,
    /// Every backup made, oldest first. The same time may occur more than
    /// once.
    pub backups: Vec<BackupTime>,
}

/// What a [`MetaItem`] stands for.
pub struct BackupRecord {
    pub last_updated: BackupTime,
    pub backups: Seq<BackupTime>,
}

impl View for MetaItem {
    type V = BackupRecord;

    open spec fn view(&self) -> BackupRecord {
        BackupRecord { last_updated: self.last_updated, backups: self.backups@ }
    }
}

impl DeepView for MetaItem {
    type V = BackupRecord;

    open spec fn deep_view(&self) -> BackupRecord {
        self@
    }
}

/// Everything the backup remembers between runs.
#[derive(Debug)]
pub struct MainMetadata {
    /// The backups of each document, by document id.
    pub items: HashMap<i64, MetaItem>,
    /// The books seen, by book id.
    pub books: HashMap<i64, Repo>,
}

/// What a [`MainMetadata`] stands for.
pub struct StoreView {
    pub items: Map<i64, BackupRecord>,
    pub books: Map<i64, RepoView>,
}

impl View for MainMetadata {
    type V = StoreView;

    open spec fn view(&self) -> StoreView {
        StoreView {
            items: Map::new(|id: i64| self.items@.contains_key(id), |id: i64| self.items@[id]@),
            books: Map::new(|id: i64| self.books@.contains_key(id), |id: i64| self.books@[id]@),
        }
    }
}

impl StoreView {
    /// The store that remembers nothing.
    pub open spec fn empty() -> StoreView {
        StoreView { items: Map::empty(), books: Map::empty() }
    }

    /// Whether the listed version `meta` of a document still has to be
    /// backed up: it does unless the store has a record of the document whose
    /// watermark is at or after the listed version.
    pub open spec fn needs_backup(self, meta: RawDocMeta) -> bool {
        !(self.items.contains_key(meta.id) && self.items[meta.id].last_updated.0.instant()
            >= meta.updated_at.instant())
    }

    /// The record of a document after a backup of its version `meta`: the
    /// watermark is that version, and the version is added to the end of the
    /// history, which starts empty for a document not seen before.
    pub open spec fn record_after(self, meta: RawDocMeta) -> BackupRecord {
        let at = BackupTime(meta.updated_at);
        BackupRecord {
            last_updated: at,
            backups: if self.items.contains_key(meta.id) {
                self.items[meta.id].backups.push(at)
            } else {
                seq![at]
            },
        }
    }

    /// The store after a backup of the version `meta` was recorded. Only the
    /// record of that document changes.
    pub open spec fn track_backup(self, meta: RawDocMeta) -> StoreView {
        StoreView { items: self.items.insert(meta.id, self.record_after(meta)), books: self.books }
    }

    /// The store after the listed `books` were merged into the index, in
    /// order: each takes the place of whatever the index held under its id.
    pub open spec fn register_books(self, books: Seq<RepoView>) -> StoreView
        decreases books.len(),
    {
        if books.len() == 0 {
            self
        } else {
            let before = self.register_books(books.drop_last());
            StoreView { items: before.items, books: before.books.insert(books.last().id, books.last()) }
        }
    }

    /// The store after a batch of documents was attempted: going through the
    /// batch in order, each document that was stored is recorded and each
    /// that failed is passed over.
    pub open spec fn track_stored(self, outcomes: Seq<(RawDocMeta, bool)>) -> StoreView
        decreases outcomes.len(),
    {
        if outcomes.len() == 0 {
            self
        } else {
            let before = self.track_stored(outcomes.drop_last());
            if outcomes.last().1 {
                before.track_backup(outcomes.last().0)
            } else {
                before
            }
        }
    }

    /// Every record has a history, and its watermark is the last entry.
    pub open spec fn consistent(self) -> bool {
        forall|id: i64| #[trigger]
            self.items.contains_key(id) ==> self.items[id].backups.len() > 0
                && self.items[id].backups.last() == self.items[id].last_updated
    }
}

/// A batch of outcomes as the store reads it: for each document its listing
/// entry and whether it was stored.
pub open spec fn outcomes_view(outcomes: Seq<(DocMeta<'_>, bool)>) -> Seq<(RawDocMeta, bool)> {
    Seq::new(outcomes.len(), |i: int| (outcomes[i].0.raw, outcomes[i].1))
}

impl Default for MainMetadata {
    /// The store of a first run: no records and no books.
    fn default() -> (store: MainMetadata)
        ensures
            store@ == StoreView::empty(),
    {
        let store = MainMetadata { items: HashMap::new(), books: HashMap::new() };
        assert(store@.items =~= Map::empty());
        assert(store@.books =~= Map::empty());
        store
    }
}

impl MainMetadata {
    /// Whether the document with the given metadata needs a new backup.
    ///
    /// It does when the store has no record of it, or when the listed version
    /// is strictly newer than the watermark. A version as old as the
    /// watermark counts as backed up.
    pub fn needs_backup(&self, meta: &DocMeta<'_>) -> (needed: bool)
        ensures
            needed == self@.needs_backup(meta.raw),
    {
        match self.items.get(&meta.raw.id) {
            Some(item) => !item.last_updated.0.at_or_after(&meta.raw.updated_at),
            None => true,
        }
    }

    /// Records that the listed version of a document has been backed up.
    ///
    /// The watermark of the document becomes the listed version and the
    /// version is added to its history; a document not seen before gets a
    /// record. No other record and no book changes. Afterwards the same
    /// listing needs no backup.
    pub fn track_backup(&mut self, meta: &DocMeta<'_>)
        ensures
            final(self)@ == old(self)@.track_backup(meta.raw),
            !final(self)@.needs_backup(meta.raw),
            old(self)@.consistent() ==> final(self)@.consistent(),
    {
        let time = BackupTime(meta.raw.updated_at);
        let id = meta.raw.id;
        let item = match self.items.remove(&id) {
            Some(mut item) => {
                assert(old(self).items@.contains_key(id) && old(self).items@[id] == item);
                item.last_updated = time;
                item.backups.push(time);
                item
            },
            None => {
                assert(!old(self).items@.contains_key(id));
                let mut backups: Vec<BackupTime> = Vec::new();
                backups.push(time);
                assert(backups@ =~= seq![time]);
                MetaItem { last_updated: time, backups }
            },
        };
        assert(item@ == old(self)@.record_after(meta.raw));
        self.items.insert(id, item);
        assert(self@.items =~= old(self)@.track_backup(meta.raw).items);
        assert(self@.books =~= old(self)@.books);
    }

    /// The listed documents that need a backup, in the order listed.
    pub fn pending<'repo>(&self, metas: &Vec<DocMeta<'repo>>) -> (needed: Vec<DocMeta<'repo>>)
        ensures
            needed@ == metas@.filter(|meta: DocMeta<'repo>| self@.needs_backup(meta.raw)),
    {
        let ghost wanted = |meta: DocMeta<'repo>| self@.needs_backup(meta.raw);
        let mut needed: Vec<DocMeta<'repo>> = Vec::new();
        let mut i: usize = 0;
        proof {
            reveal(Seq::filter);
            assert(metas@.take(0) =~= Seq::empty());
        }
        while i < metas.len()
            invariant
                i <= metas.len(),
                wanted == |meta: DocMeta<'repo>| self@.needs_backup(meta.raw),
                needed@ == metas@.take(i as int).filter(wanted),
            decreases metas.len() - i,
        {
            proof {
                reveal(Seq::filter);
                let taken = metas@.take(i as int + 1);
                assert(taken.drop_last() =~= metas@.take(i as int));
                assert(taken.last() == metas@[i as int]);
            }
            if self.needs_backup(&metas[i]) {
                needed.push(metas[i]);
            }
            i += 1;
        }
        assert(metas@.take(i as int) =~= metas@);
        needed
    }

    /// Records the outcome of a batch of documents: each document of the
    /// batch that was stored (`true`) is recorded as backed up, in the order
    /// of the batch; each that failed (`false`) leaves the store as it was.
    pub fn track_stored(&mut self, outcomes: &Vec<(DocMeta<'_>, bool)>)
        ensures
            final(self)@ == old(self)@.track_stored(outcomes_view(outcomes@)),
            final(self)@.books == old(self)@.books,
            old(self)@.consistent() ==> final(self)@.consistent(),
    {
        let ghost all = outcomes_view(outcomes@);
        let mut i: usize = 0;
        assert(all.take(0) =~= Seq::empty());
        while i < outcomes.len()
            invariant
                i <= outcomes.len(),
                all == outcomes_view(outcomes@),
                self@ == old(self)@.track_stored(all.take(i as int)),
                self@.books == old(self)@.books,
                old(self)@.consistent() ==> self@.consistent(),
            decreases outcomes.len() - i,
        {
            proof {
                let taken = all.take(i as int + 1);
                assert(taken.drop_last() =~= all.take(i as int));
                assert(taken.last() == (outcomes@[i as int].0.raw, outcomes@[i as int].1));
            }
            if outcomes[i].1 {
                self.track_backup(&outcomes[i].0);
            }
            i += 1;
        }
        assert(all.take(i as int) =~= all);
    }

    /// Merges the listed books into the index of books, each under its id. A
    /// book listed later takes the place of one listed earlier or held
    /// before. The records of documents do not change.
    pub fn register_books(&mut self, books: &Vec<Repo>)
        ensures
            final(self)@ == old(self)@.register_books(books.deep_view()),
            final(self)@.items == old(self)@.items,
    {
        let mut i: usize = 0;
        assert(books.deep_view().take(0) =~= Seq::empty());
        while i < books.len()
            invariant
                i <= books.len(),
                self@ == old(self)@.register_books(books.deep_view().take(i as int)),
                self@.items == old(self)@.items,
            decreases books.len() - i,
        {
            let ghost before = self@;
            let ghost taken = books.deep_view().take(i as int + 1);
            assert(taken.drop_last() =~= books.deep_view().take(i as int));
            assert(taken.last() == books[i as int]@);
            let book = books[i].clone();
            self.books.insert(book.id, book);
            assert(self@.books =~= before.books.insert(taken.last().id, taken.last()));
            assert(self@.items =~= before.items);
            i += 1;
        }
        assert(books.deep_view().take(i as int) =~= books.deep_view());
    }
}

/// Once a version of a document is recorded as backed up, that same version
/// needs no backup.
pub proof fn lemma_tracked_needs_no_backup(store: StoreView, meta: RawDocMeta)
    ensures
        !store.track_backup(meta).needs_backup(meta),
{
}

/// A document needs a backup exactly when it was never backed up or the
/// listed version is strictly newer than the watermark: a version equal to
/// the watermark needs none.
pub proof fn lemma_strictly_newer(store: StoreView, meta: RawDocMeta)
    ensures
        !store.items.contains_key(meta.id) ==> store.needs_backup(meta),
        store.items.contains_key(meta.id) ==> (store.needs_backup(meta)
            <==> meta.updated_at.instant() > store.items[meta.id].last_updated.0.instant()),
        store.items.contains_key(meta.id) && meta.updated_at.instant()
            == store.items[meta.id].last_updated.0.instant() ==> !store.needs_backup(meta),
{
}

/// Two backups of one document, one after the other: the watermark is the
/// version backed up last, and the history grows by both versions in the
/// order of the backups. Where the second version is the newer one, the
/// watermark has moved forward.
pub proof fn lemma_watermark_follows_backups(store: StoreView, first: RawDocMeta, second: RawDocMeta)
    requires
        first.id == second.id,
    ensures
        ({
            let before = if store.items.contains_key(first.id) {
                store.items[first.id].backups
            } else {
                Seq::empty()
            };
            let after = store.track_backup(first).track_backup(second);
            &&& after.items.contains_key(first.id)
            &&& after.items[first.id].last_updated == BackupTime(second.updated_at)
            &&& after.items[first.id].backups == before.push(BackupTime(first.updated_at)).push(
                BackupTime(second.updated_at),
            )
            &&& second.updated_at.instant() > first.updated_at.instant()
                ==> after.items[first.id].last_updated.0.instant() > store.track_backup(
                first,
            ).items[first.id].last_updated.0.instant()
        }),
{
    if !store.items.contains_key(first.id) {
        assert(seq![BackupTime(first.updated_at)] =~= Seq::<BackupTime>::empty().push(
            BackupTime(first.updated_at),
        ));
    }
}

/// What a batch does to one of its documents, where no other entry of the
/// batch stored the same document. A document that was stored has the record
/// of one more backup and needs none. A document that failed has the record
/// it had, or none, and needs a backup exactly when it did before: one that
/// was never backed up still needs one. No book changes.
pub proof fn lemma_batch_isolates_failures(
    store: StoreView,
    outcomes: Seq<(RawDocMeta, bool)>,
    i: int,
)
    requires
        0 <= i < outcomes.len(),
        forall|j: int|
            0 <= j < outcomes.len() && j != i && outcomes[j].1 ==> outcomes[j].0.id
                != outcomes[i].0.id,
    ensures
        ({
            let after = store.track_stored(outcomes);
            let meta = outcomes[i].0;
            &&& after.books == store.books
            &&& outcomes[i].1 ==> after.items.contains_key(meta.id) && after.items[meta.id]
                == store.record_after(meta) && !after.needs_backup(meta)
            &&& !outcomes[i].1 ==> after.items.contains_key(meta.id) == store.items.contains_key(
                meta.id,
            ) && (store.items.contains_key(meta.id) ==> after.items[meta.id]
                == store.items[meta.id]) && after.needs_backup(meta) == store.needs_backup(meta)
            &&& !outcomes[i].1 && !store.items.contains_key(meta.id) ==> after.needs_backup(meta)
        }),
    decreases outcomes.len(),
{
    let rest = outcomes.drop_last();
    let meta = outcomes[i].0;
    if i == outcomes.len() - 1 {
        lemma_batch_leaves_others(store, rest, meta.id);
    } else {
        lemma_batch_isolates_failures(store, rest, i);
    }
}

/// A batch changes no book, and no record but those of the documents it
/// stored.
pub proof fn lemma_batch_leaves_others(store: StoreView, outcomes: Seq<(RawDocMeta, bool)>, id: i64)
    requires
        forall|j: int| 0 <= j < outcomes.len() && outcomes[j].1 ==> outcomes[j].0.id != id,
    ensures
        store.track_stored(outcomes).books == store.books,
        store.track_stored(outcomes).items.contains_key(id) == store.items.contains_key(id),
        store.items.contains_key(id) ==> store.track_stored(outcomes).items[id] == store.items[id],
        forall|meta: RawDocMeta|
            meta.id == id ==> store.track_stored(outcomes).needs_backup(meta) == store.needs_backup(
                meta,
            ),
    decreases outcomes.len(),
{
    if outcomes.len() > 0 {
        lemma_batch_leaves_others(store, outcomes.drop_last(), id);
    }
}

/// Merging a list of books files each book under its id, and the book
/// listed last under an id is the one the index holds afterwards.
pub proof fn lemma_register_books_keeps_last(store: StoreView, books: Seq<RepoView>, i: int)
    requires
        0 <= i < books.len(),
        forall|j: int| i < j < books.len() ==> books[j].id != books[i].id,
    ensures
        store.register_books(books).books.contains_key(books[i].id),
        store.register_books(books).books[books[i].id] == books[i],
    decreases books.len(),
{
    if i < books.len() - 1 {
        let rest = books.drop_last();
        assert forall|j: int| i < j < rest.len() implies rest[j].id != rest[i].id by {
            assert(books[j].id != books[i].id);
        }
        lemma_register_books_keeps_last(store, rest, i);
    }
}

/// Merging a list of books changes no entry of the index but those of the
/// books listed, and no record of a document.
pub proof fn lemma_register_books_leaves_others(store: StoreView, books: Seq<RepoView>, id: i64)
    requires
        forall|i: int| 0 <= i < books.len() ==> books[i].id != id,
    ensures
        store.register_books(books).items == store.items,
        store.register_books(books).books.contains_key(id) == store.books.contains_key(id),
        store.books.contains_key(id) ==> store.register_books(books).books[id] == store.books[id],
    decreases books.len(),
{
    lemma_register_books_keeps_items(store, books);
    if books.len() > 0 {
        lemma_register_books_leaves_others(store, books.drop_last(), id);
    }
}

/// Merging books changes no record of a document, so which documents need a
/// backup stays as it was.
pub proof fn lemma_register_books_keeps_items(store: StoreView, books: Seq<RepoView>)
    ensures
        store.register_books(books).items == store.items,
        forall|meta: RawDocMeta|
            store.register_books(books).needs_backup(meta) == store.needs_backup(meta),
    decreases books.len(),
{
    if books.len() > 0 {
        lemma_register_books_keeps_items(store, books.drop_last());
    }
}

} // verus!
