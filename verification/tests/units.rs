//! Unit checks of the header mapping and the decimal helpers.

use openai_proxy::bytes::{slice_eq, slice_starts_with};
use openai_proxy::decimal::{parse_u16, u64_to_decimal};
use openai_proxy::headers::Headers;

#[test]
fn header_insert_get_remove() {
    let mut h = Headers::new();
    assert_eq!(h.len(), 0);
    assert_eq!(h.get(b"host".as_slice()), None);

    h.insert(b"host".to_vec(), b"a".to_vec());
    h.insert(b"accept".to_vec(), b"*/*".to_vec());
    assert_eq!(h.len(), 2);
    assert_eq!(h.get(b"host".as_slice()), Some(&b"a".to_vec()));

    // A second insert under the same name replaces the value.
    h.insert(b"host".to_vec(), b"b".to_vec());
    assert_eq!(h.len(), 2);
    assert_eq!(h.get(b"host".as_slice()), Some(&b"b".to_vec()));

    h.remove(b"host".as_slice());
    assert_eq!(h.get(b"host".as_slice()), None);
    assert_eq!(h.get(b"accept".as_slice()), Some(&b"*/*".to_vec()));
    assert_eq!(h.len(), 1);

    // Removing an absent name is a no-op.
    h.remove(b"host".as_slice());
    assert_eq!(h.len(), 1);
}

#[test]
fn header_entries_can_be_walked() {
    let mut h = Headers::new();
    h.insert(b"a".to_vec(), b"1".to_vec());
    h.insert(b"b".to_vec(), b"2".to_vec());
    let mut seen = Vec::new();
    for i in 0..h.len() {
        seen.push(h.entry_at(i));
    }
    assert_eq!(seen, vec![(b"a".to_vec(), b"1".to_vec()), (b"b".to_vec(), b"2".to_vec())]);
}

#[test]
fn decimal_rendering_is_exact() {
    assert_eq!(u64_to_decimal(0), b"0".to_vec());
    assert_eq!(u64_to_decimal(7), b"7".to_vec());
    assert_eq!(u64_to_decimal(10), b"10".to_vec());
    assert_eq!(u64_to_decimal(1234), b"1234".to_vec());
    assert_eq!(u64_to_decimal(18446744073709551615), b"18446744073709551615".to_vec());
}

#[test]
fn u16_parsing_matches_std() {
    for s in ["0", "1", "4000", "65535", "65536", "+42", "007", "", "+", "4 0", "-3", "f00"] {
        let expected: Option<u16> = s.parse().ok();
        assert_eq!(parse_u16(s.as_bytes()), expected, "input {:?}", s);
    }
}

#[test]
fn byte_helpers() {
    assert!(slice_starts_with(b"/openai/v1".as_slice(), b"/openai/".as_slice()));
    assert!(!slice_starts_with(b"/open".as_slice(), b"/openai/".as_slice()));
    assert!(!slice_starts_with(b"/x/openai/".as_slice(), b"/openai/".as_slice()));
    assert!(slice_eq(b"abc".as_slice(), b"abc".as_slice()));
    assert!(!slice_eq(b"abc".as_slice(), b"abd".as_slice()));
    assert!(!slice_eq(b"abc".as_slice(), b"ab".as_slice()));
}
