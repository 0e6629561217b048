use yuque_backup::sync::{batches, doc_file_name, CHUNK_SIZE, FILES_DIR, METADATA_FILE};
use yuque_backup::text::push_decimal;

#[test]
fn names_and_sizes() {
    assert_eq!(CHUNK_SIZE, 8);
    assert_eq!(METADATA_FILE, "metadata.json");
    assert_eq!(FILES_DIR, "files");
}

#[test]
fn batches_cover_everything_in_order() {
    assert_eq!(batches(20, 8), vec![(0, 8), (8, 16), (16, 20)]);
    assert_eq!(batches(16, 8), vec![(0, 8), (8, 16)]);
    assert_eq!(batches(1, 8), vec![(0, 1)]);
    assert_eq!(batches(8, 8), vec![(0, 8)]);
    assert_eq!(batches(9, 8), vec![(0, 8), (8, 9)]);
    assert_eq!(batches(3, 1), vec![(0, 1), (1, 2), (2, 3)]);
}

#[test]
fn no_items_no_batches() {
    assert!(batches(0, 8).is_empty());
    assert!(batches(0, 1).is_empty());
}

#[test]
fn batches_near_the_largest_length() {
    let got = batches(usize::MAX, usize::MAX - 1);
    assert_eq!(got, vec![(0, usize::MAX - 1), (usize::MAX - 1, usize::MAX)]);
    assert_eq!(batches(usize::MAX, usize::MAX), vec![(0, usize::MAX)]);
}

#[test]
fn batches_match_std_chunks() {
    let items: Vec<u32> = (0..37).collect();
    let want: Vec<Vec<u32>> = items.chunks(CHUNK_SIZE).map(|c| c.to_vec()).collect();
    let got: Vec<Vec<u32>> =
        batches(items.len(), CHUNK_SIZE).into_iter().map(|(a, b)| items[a..b].to_vec()).collect();
    assert_eq!(got, want);
}

#[test]
fn doc_file_names() {
    assert_eq!(doc_file_name(42), "doc42.json");
    assert_eq!(doc_file_name(0), "doc0.json");
    assert_eq!(doc_file_name(7), "doc7.json");
    assert_eq!(doc_file_name(10), "doc10.json");
    assert_eq!(doc_file_name(-5), "doc-5.json");
    assert_eq!(doc_file_name(i64::MAX), "doc9223372036854775807.json");
    assert_eq!(doc_file_name(i64::MIN), "doc-9223372036854775808.json");
}

#[test]
fn decimal_matches_std_formatting() {
    for n in [0i64, 1, 9, 10, 11, 99, 100, 101, 12345, -1, -10, -999, i64::MAX, i64::MIN] {
        let mut out = String::from("n=");
        push_decimal(&mut out, n);
        assert_eq!(out, format!("n={}", n));
    }
}
