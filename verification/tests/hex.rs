use romer::hex::{to_string, to_vec};

#[test]
fn decodes_mixed_case() {
    assert_eq!(to_vec("0aF1"), Some(vec![0x0a, 0xf1]));
}

#[test]
fn decodes_every_digit() {
    assert_eq!(
        to_vec("0123456789abcdefABCDEF"),
        Some(vec![0x01, 0x23, 0x45, 0x67, 0x89, 0xab, 0xcd, 0xef, 0xab, 0xcd, 0xef])
    );
}

#[test]
fn decodes_empty_text_to_no_bytes() {
    assert_eq!(to_vec(""), Some(vec![]));
}

#[test]
fn drops_an_unpaired_last_digit() {
    assert_eq!(to_vec("abc"), Some(vec![0xab]));
    assert_eq!(to_vec("f"), Some(vec![]));
}

#[test]
fn rejects_any_other_character() {
    assert_eq!(to_vec("0g"), None);
    assert_eq!(to_vec("0x12"), None);
    assert_eq!(to_vec("12 "), None);
    assert_eq!(to_vec("@"), None);
    assert_eq!(to_vec("`"), None);
    assert_eq!(to_vec("/"), None);
    assert_eq!(to_vec(":"), None);
    assert_eq!(to_vec("G"), None);
}

#[test]
fn rejects_text_beyond_ascii() {
    assert_eq!(to_vec("\u{00e9}"), None);
    assert_eq!(to_vec("ab\u{ff10}"), None);
}

#[test]
fn rejects_a_bad_digit_in_the_unpaired_place() {
    assert_eq!(to_vec("abz"), None);
}

#[test]
fn encodes_lower_case() {
    assert_eq!(to_string(&[0xab, 0x01]), "ab01");
}

#[test]
fn encodes_with_leading_zeros() {
    assert_eq!(to_string(&[0x00, 0x0f, 0xf0, 0xff]), "000ff0ff");
}

#[test]
fn encodes_no_bytes_as_empty_text() {
    assert_eq!(to_string(&[]), "");
}

#[test]
fn decoding_undoes_encoding() {
    let mut bytes = Vec::new();
    for b in 0..=255u8 {
        bytes.push(b);
    }
    let text = to_string(&bytes);
    assert_eq!(text.len(), 512);
    assert_eq!(to_vec(&text), Some(bytes));
}
