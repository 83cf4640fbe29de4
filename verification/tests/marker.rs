use cati::buffer::{ProbeBuffer, BUFFER_CAPACITY, BUFFER_LIMIT};
use cati::marker::{contains_marker, find_marker};

#[test]
fn marker_in_a_full_answer() {
    let answer = b"\x1b_Gi=31;OK\x1b\\";
    assert_eq!(find_marker(answer), Some(1));
    assert!(contains_marker(answer));
}

#[test]
fn marker_at_the_very_end() {
    assert_eq!(find_marker(b"\x1b_Gi"), Some(1));
    assert_eq!(find_marker(b"_Gi"), Some(0));
    assert_eq!(find_marker(b"xxxxxxxx_Gi"), Some(8));
}

#[test]
fn first_of_two_markers() {
    assert_eq!(find_marker(b"ab_Gi_Gi"), Some(2));
}

#[test]
fn no_marker_in_short_or_partial_input() {
    assert_eq!(find_marker(b""), None);
    assert_eq!(find_marker(b"_"), None);
    assert_eq!(find_marker(b"_G"), None);
    assert_eq!(find_marker(b"\x1b_G"), None);
    assert_eq!(find_marker(b"i=31;OK"), None);
    assert_eq!(find_marker(b"_gi _GI _G_i G_i"), None);
    assert!(!contains_marker(b"_G i"));
}

#[test]
fn search_knows_nothing_of_escape_sequences() {
    assert_eq!(find_marker(b"plain text with _Gi inside"), Some(16));
}

#[test]
fn marker_survives_more_input() {
    let mut bytes = b"ab_Gi".to_vec();
    assert_eq!(find_marker(&bytes), Some(2));
    bytes.extend_from_slice(b"..._Gi...");
    assert_eq!(find_marker(&bytes), Some(2));
}

#[test]
fn buffer_starts_empty() {
    let buffer = ProbeBuffer::new();
    assert_eq!(buffer.len(), 0);
    assert_eq!(buffer.room(), 255);
    assert!(!buffer.is_full());
    assert!(!buffer.holds_marker());
    assert_eq!(buffer.as_slice(), b"");
    assert_eq!(BUFFER_CAPACITY, 256);
    assert_eq!(BUFFER_LIMIT, 255);
}

#[test]
fn buffer_gathers_in_order() {
    let mut buffer = ProbeBuffer::new();
    assert_eq!(buffer.fill(b"\x1b_G"), 3);
    assert!(!buffer.holds_marker());
    assert_eq!(buffer.fill(b"i=31;OK"), 7);
    assert_eq!(buffer.as_slice(), b"\x1b_Gi=31;OK");
    assert_eq!(buffer.len(), 10);
    assert_eq!(buffer.room(), 245);
    assert!(buffer.holds_marker());
}

#[test]
fn buffer_takes_only_what_fits() {
    let mut buffer = ProbeBuffer::new();
    let first = vec![b'a'; 250];
    assert_eq!(buffer.fill(&first), 250);
    assert_eq!(buffer.room(), 5);
    assert_eq!(buffer.fill(b"0123456789"), 5);
    assert!(buffer.is_full());
    assert_eq!(buffer.len(), 255);
    assert_eq!(&buffer.as_slice()[250..], b"01234");
    assert_eq!(buffer.fill(b"more"), 0);
    assert_eq!(buffer.len(), 255);
}

#[test]
fn buffer_takes_nothing_of_nothing() {
    let mut buffer = ProbeBuffer::new();
    assert_eq!(buffer.fill(b""), 0);
    assert_eq!(buffer.len(), 0);
}
