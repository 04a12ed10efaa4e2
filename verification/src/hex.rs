//! Hexadecimal text for byte strings: the form in which fixed-size
//! identifiers (payment ids, preimages, secrets) cross a text boundary.

use vstd::prelude::*;
use vstd::string::*;
use vstd::utf8::*;

verus! {

/// ASCII `0`.
pub const DIGIT_0: u8 = 0x30;

/// ASCII `9`.
pub const DIGIT_9: u8 = 0x39;

/// ASCII `A`.
pub const UPPER_A: u8 = 0x41;

/// ASCII `F`.
pub const UPPER_F: u8 = 0x46;

/// ASCII `a`.
pub const LOWER_A: u8 = 0x61;

/// ASCII `f`.
pub const LOWER_F: u8 = 0x66;

/// The value of one hexadecimal digit given as an ASCII byte, upper or
/// lower case; `None` for every other byte.
pub open spec fn hex_digit_value(c: u8) -> Option<u8> {
    if DIGIT_0 <= c <= DIGIT_9 {
        Some((c - DIGIT_0) as u8)
    } else if UPPER_A <= c <= UPPER_F {
        Some((c - UPPER_A + 10) as u8)
    } else if LOWER_A <= c <= LOWER_F {
        Some((c - LOWER_A + 10) as u8)
    } else {
        None
    }
}

/// Every byte of `text` is a hexadecimal digit.
pub open spec fn is_hex(text: Seq<u8>) -> bool {
    forall|i: int| 0 <= i < text.len() ==> (#[trigger] hex_digit_value(text[i])) is Some
}

/// The bytes that `text` spells, two digits per byte, high nibble first.
/// A trailing unpaired digit spells nothing.
pub open spec fn hex_decode(text: Seq<u8>) -> Seq<u8> {
    Seq::new(
        text.len() / 2,
        |i: int|
            (16 * hex_digit_value(text[2 * i]).unwrap() + hex_digit_value(
                text[2 * i + 1],
            ).unwrap()) as u8,
    )
}

/// The lower-case hexadecimal digit for a nibble.
pub open spec fn hex_digit_char(nibble: u8) -> char {
    if nibble < 10 {
        (DIGIT_0 + nibble) as char
    } else {
        (LOWER_A + (nibble - 10)) as char
    }
}

/// The lower-case hexadecimal spelling of `bytes`: two digits per byte,
/// high nibble first.
pub open spec fn hex_encode(bytes: Seq<u8>) -> Seq<char> {
    Seq::new(
        2 * bytes.len(),
        |i: int|
            if i % 2 == 0 {
                hex_digit_char(bytes[i / 2] / 16)
            } else {
                hex_digit_char(bytes[i / 2] % 16)
            },
    )
}

/// `String::push` appends the one character it is given.
pub assume_specification[ String::push ](s: &mut String, ch: char)
    ensures
        final(s)@ == old(s)@.push(ch),
;

fn digit_value(c: u8) -> (d: Option<u8>)
    ensures
        d == hex_digit_value(c),
        d matches Some(v) ==> v < 16,
{
    if UPPER_A <= c && c <= UPPER_F {
        Some(c - UPPER_A + 10)
    } else if LOWER_A <= c && c <= LOWER_F {
        Some(c - LOWER_A + 10)
    } else if DIGIT_0 <= c && c <= DIGIT_9 {
        Some(c - DIGIT_0)
    } else {
        None
    }
}

fn digit_char(nibble: u8) -> (c: char)
    requires
        nibble < 16,
    ensures
        c == hex_digit_char(nibble),
{
    if nibble < 10 {
        (DIGIT_0 + nibble) as char
    } else {
        (LOWER_A + (nibble - 10)) as char
    }
}

/// Decodes hexadecimal text into bytes.
///
/// Succeeds exactly when every byte of the text is a hexadecimal digit;
/// digits pair up from the left and an unpaired last digit is dropped.
pub fn to_vec(hex: &str) -> (out: Option<Vec<u8>>)
    ensures
        out is Some <==> is_hex(hex.spec_bytes()),
        out matches Some(v) ==> v@ == hex_decode(hex.spec_bytes()),
{
    let text = hex.as_bytes();
    let mut out: Vec<u8> = Vec::with_capacity(text.len() / 2);
    let mut b: u8 = 0;
    let mut idx: usize = 0;
    while idx < text.len()
        invariant
            text@ == hex.spec_bytes(),
            idx <= text.len(),
            forall|i: int| 0 <= i < idx ==> (#[trigger] hex_digit_value(text@[i])) is Some,
            out@.len() == idx / 2,
            forall|i: int| 0 <= i < out@.len() ==> out@[i] == #[trigger] hex_decode(text@)[i],
            idx % 2 == 0 ==> b == 0,
            idx % 2 == 1 ==> hex_digit_value(text@[idx - 1]) == Some(b),
        decreases text.len() - idx,
    {
        let c = text[idx];
        match digit_value(c) {
            Some(d) => {
                assert((b << 4) | d == b * 16 + d) by (bit_vector)
                    requires
                        b < 16,
                        d < 16,
                ;
                b = (b << 4) | d;
            },
            None => {
                return None;
            },
        }
        if (idx & 1) == 1 {
            assert(idx & 1 == idx % 2) by (bit_vector);
            out.push(b);
            b = 0;
        } else {
            assert(idx & 1 == idx % 2) by (bit_vector);
        }
        idx += 1;
    }
    assert(out@ =~= hex_decode(text@));
    Some(out)
}

/// Encodes bytes as lower-case hexadecimal text, two digits per byte.
pub fn to_string(value: &[u8]) -> (res: String)
    ensures
        res@ == hex_encode(value@),
{
    let mut res = String::new();
    let mut idx: usize = 0;
    while idx < value.len()
        invariant
            idx <= value.len(),
            res@ == hex_encode(value@.take(idx as int)),
        decreases value.len() - idx,
    {
        let v = value[idx];
        res.push(digit_char(v / 16));
        res.push(digit_char(v % 16));
        idx += 1;
        assert(res@ =~= hex_encode(value@.take(idx as int)));
    }
    assert(value@.take(idx as int) =~= value@);
    res
}

/// The digit written for a nibble reads back as that nibble.
proof fn lemma_digit_round_trip(nibble: u8)
    requires
        nibble < 16,
    ensures
        hex_digit_char(nibble) as u32 <= 0x7f,
        hex_digit_value(hex_digit_char(nibble) as u8) == Some(nibble),
{
}

/// Decoding undoes encoding: the text that `to_string` writes for `bytes`
/// is ASCII, consists of hexadecimal digits only, and is decoded by
/// `to_vec` to `bytes` again.
pub proof fn lemma_hex_round_trip(bytes: Seq<u8>)
    ensures
        is_ascii_chars(hex_encode(bytes)),
        is_hex(encode_utf8(hex_encode(bytes))),
        hex_decode(encode_utf8(hex_encode(bytes))) == bytes,
{
    let chars = hex_encode(bytes);
    assert forall|i: int| 0 <= i < chars.len() implies '\0' <= #[trigger] chars[i]
        <= '\u{7f}' by {
        lemma_digit_round_trip(bytes[i / 2] / 16);
        lemma_digit_round_trip(bytes[i / 2] % 16);
    }
    is_ascii_chars_encode_utf8(chars);
    let text = encode_utf8(chars);
    assert forall|i: int| 0 <= i < text.len() implies (#[trigger] hex_digit_value(
        text[i],
    )) is Some by {
        assert(text[i] == chars[i] as u8);
        lemma_digit_round_trip(bytes[i / 2] / 16);
        lemma_digit_round_trip(bytes[i / 2] % 16);
    }
    assert forall|i: int| 0 <= i < bytes.len() implies #[trigger] hex_decode(text)[i]
        == bytes[i] by {
        assert(text[2 * i] == chars[2 * i] as u8);
        assert(text[2 * i + 1] == chars[2 * i + 1] as u8);
        lemma_digit_round_trip(bytes[i] / 16);
        lemma_digit_round_trip(bytes[i] % 16);
    }
    assert(hex_decode(text) =~= bytes);
}

} // verus!
