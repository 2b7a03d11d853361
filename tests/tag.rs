use pn532::tag::{decode_identifier, PageReader};

#[test]
fn identifier_after_marker() {
    assert_eq!(decode_identifier(b"xx en042 more"), Some(42));
}

#[test]
fn marker_at_end_gives_nothing() {
    assert_eq!(decode_identifier(b"en"), None);
}

#[test]
fn marker_is_a_plain_byte_pattern() {
    assert_eq!(decode_identifier(b"enabled9"), None);
    assert_eq!(decode_identifier(b"en9abled"), Some(9));
}

#[test]
fn no_marker_gives_nothing() {
    assert_eq!(decode_identifier(b"hello world 42"), None);
    assert_eq!(decode_identifier(b""), None);
    assert_eq!(decode_identifier(b"e"), None);
}

#[test]
fn only_first_marker_counts() {
    assert_eq!(decode_identifier(b"enx en5"), None);
    assert_eq!(decode_identifier(b"en7 en5"), Some(7));
}

#[test]
fn identifier_limits() {
    assert_eq!(decode_identifier(b"en4294967295"), Some(u32::MAX));
    assert_eq!(decode_identifier(b"en4294967296"), None);
    assert_eq!(decode_identifier(b"en0"), Some(0));
}

#[test]
fn page_reader_first_failure_reads_nothing() {
    let mut reader = PageReader::new();
    assert_eq!(reader.next_group(), Some(0));
    reader.record(None);
    assert_eq!(reader.next_group(), None);
    assert!(reader.bytes().is_empty());
}

#[test]
fn page_reader_stops_at_failure() {
    let mut reader = PageReader::new();
    reader.record(Some(vec![1, 2, 3, 4]));
    assert_eq!(reader.next_group(), Some(4));
    reader.record(Some(vec![5, 6]));
    assert_eq!(reader.next_group(), Some(8));
    reader.record(None);
    assert_eq!(reader.next_group(), None);
    assert_eq!(reader.bytes(), &vec![1, 2, 3, 4, 5, 6]);
}

#[test]
fn page_reader_covers_all_pages() {
    let mut reader = PageReader::new();
    let mut pages = Vec::new();
    while let Some(page) = reader.next_group() {
        pages.push(page);
        reader.record(Some(vec![page; 16]));
    }
    assert_eq!(pages, vec![0, 4, 8, 12, 16, 20, 24, 28, 32, 36, 40, 44]);
    assert_eq!(reader.bytes().len(), 12 * 16);
}
