//! The signature matcher: literal bytes must match exactly, wildcards match
//! any one byte, and the leftmost match wins.

use mirage_tweaks::pattern::PatternByte;
use mirage_tweaks::pattern::find_in_buffer;

fn lit(b: u8) -> PatternByte {
    PatternByte::Literal(b)
}

fn any() -> PatternByte {
    PatternByte::Wildcard
}

#[test]
fn literal_pattern_leftmost() {
    let data = vec![0x10, 0x20, 0x30, 0x20, 0x30];
    let pattern = vec![lit(0x20), lit(0x30)];
    assert_eq!(find_in_buffer(&data, &pattern), Some(1));
}

#[test]
fn wildcard_matches_any_byte() {
    let data = vec![0xAA, 0xF3, 0x07, 0x10, 0xBB];
    let pattern = vec![lit(0xF3), any(), lit(0x10)];
    assert_eq!(find_in_buffer(&data, &pattern), Some(1));
}

#[test]
fn wildcard_does_not_relax_literals() {
    let data = vec![0xF3, 0x07, 0x11];
    let pattern = vec![lit(0xF3), any(), lit(0x10)];
    assert_eq!(find_in_buffer(&data, &pattern), None);
}

#[test]
fn leftmost_of_several_wildcard_matches() {
    // Both offset 0 and offset 2 match; the leftmost is reported.
    let data = vec![0x01, 0x02, 0x01, 0x03, 0x01];
    let pattern = vec![lit(0x01), any()];
    assert_eq!(find_in_buffer(&data, &pattern), Some(0));
}

#[test]
fn match_at_start_and_end() {
    let data = vec![0x05, 0x06, 0x07];
    assert_eq!(find_in_buffer(&data, &vec![lit(0x05)]), Some(0));
    assert_eq!(find_in_buffer(&data, &vec![lit(0x07)]), Some(2));
}

#[test]
fn pattern_longer_than_buffer() {
    let data = vec![0x01, 0x02];
    let pattern = vec![lit(0x01), lit(0x02), lit(0x03)];
    assert_eq!(find_in_buffer(&data, &pattern), None);
}

#[test]
fn empty_pattern_matches_at_origin() {
    let data = vec![0x01, 0x02];
    let pattern: Vec<PatternByte> = Vec::new();
    assert_eq!(find_in_buffer(&data, &pattern), Some(0));
}

#[test]
fn empty_buffer_no_match() {
    let data: Vec<u8> = Vec::new();
    let pattern = vec![lit(0x00)];
    assert_eq!(find_in_buffer(&data, &pattern), None);
}

#[test]
fn all_wildcards_match_anywhere_first() {
    let data = vec![0x09, 0x08, 0x07];
    let pattern = vec![any(), any()];
    assert_eq!(find_in_buffer(&data, &pattern), Some(0));
}
