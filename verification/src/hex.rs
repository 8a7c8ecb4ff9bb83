//! Colours written and read as hexadecimal digits.

use vstd::prelude::*;
use vstd::string::StringSliceAdditionalSpecFns;
use vstd::utf8::{
    encode_utf8_valid_utf8, is_char_boundary, is_char_boundary_iff_not_is_continuation_byte,
    is_char_boundary_start_end_of_seq, valid_utf8, valid_utf8_split,
};
use std::num::ParseIntError;
use crate::text::push_char;

verus! {

/// The error of `u8::from_str_radix`.
#[verifier::external_type_specification]
#[verifier::external_body]
pub struct ExParseIntError(ParseIntError);

/// The character of a hexadecimal digit, a capital where it is a letter.
pub open spec fn hex_digit(d: int) -> char {
    if d == 0 {
        '0'
    } else if d == 1 {
        '1'
    } else if d == 2 {
        '2'
    } else if d == 3 {
        '3'
    } else if d == 4 {
        '4'
    } else if d == 5 {
        '5'
    } else if d == 6 {
        '6'
    } else if d == 7 {
        '7'
    } else if d == 8 {
        '8'
    } else if d == 9 {
        '9'
    } else if d == 10 {
        'A'
    } else if d == 11 {
        'B'
    } else if d == 12 {
        'C'
    } else if d == 13 {
        'D'
    } else if d == 14 {
        'E'
    } else {
        'F'
    }
}

/// A byte in two hexadecimal digits.
pub open spec fn hex_byte(byte: u8) -> Seq<char> {
    seq![hex_digit(byte as int / 16), hex_digit(byte as int % 16)]
}

/// The character of the hexadecimal digit `d`.
fn hex_digit_char(d: u8) -> (c: char)
    requires
        d < 16,
    ensures
        c == hex_digit(d as int),
{
    if d == 0 {
        '0'
    } else if d == 1 {
        '1'
    } else if d == 2 {
        '2'
    } else if d == 3 {
        '3'
    } else if d == 4 {
        '4'
    } else if d == 5 {
        '5'
    } else if d == 6 {
        '6'
    } else if d == 7 {
        '7'
    } else if d == 8 {
        '8'
    } else if d == 9 {
        '9'
    } else if d == 10 {
        'A'
    } else if d == 11 {
        'B'
    } else if d == 12 {
        'C'
    } else if d == 13 {
        'D'
    } else if d == 14 {
        'E'
    } else {
        'F'
    }
}

/// Appends the two hexadecimal digits of `byte` to `text`.
pub(crate) fn push_hex_byte(text: &mut String, byte: u8)
    ensures
        final(text)@ == old(text)@ + hex_byte(byte),
{
    push_char(text, hex_digit_char(byte / 16));
    push_char(text, hex_digit_char(byte % 16));
    assert(text@ =~= old(text)@ + hex_byte(byte));
}

/// A string that holds `#` only.
pub(crate) fn hash_sign() -> (text: String)
    ensures
        text@ == seq!['#'],
{
    let mut text = String::new();
    push_char(&mut text, '#');
    assert(text@ =~= seq!['#']);
    text
}

/// The bytes of a string without the `#` signs that lead it.
pub open spec fn trim_hashes(bytes: Seq<u8>) -> Seq<u8>
    decreases bytes.len(),
{
    if bytes.len() > 0 && bytes[0] == 0x23 {
        trim_hashes(bytes.skip(1))
    } else {
        bytes
    }
}

/// The value of a byte as a hexadecimal digit, in either case, if it is one.
pub open spec fn hex_digit_value(byte: u8) -> Option<u8> {
    if 0x30 <= byte <= 0x39 {
        Some((byte - 0x30) as u8)
    } else if 0x41 <= byte <= 0x46 {
        Some((byte - 0x41 + 10) as u8)
    } else if 0x61 <= byte <= 0x66 {
        Some((byte - 0x61 + 10) as u8)
    } else {
        None
    }
}

/// The byte that two bytes of text stand for, if they stand for one: two
/// hexadecimal digits, or a plus sign and one hexadecimal digit.
pub open spec fn hex_pair_value(text: Seq<u8>) -> Option<u8> {
    match (hex_digit_value(text[0]), hex_digit_value(text[1])) {
        (Some(high), Some(low)) => Some((high * 16 + low) as u8),
        (None, Some(low)) => if text[0] == 0x2B {
            Some(low)
        } else {
            None
        },
        _ => None,
    }
}

/// The byte that stands at `at` in `text` in two bytes of text, if one does.
pub open spec fn hex_pair_at(text: Seq<u8>, at: int) -> Option<u8> {
    hex_pair_value(text.subrange(at, at + 2))
}

/// What is left of a string when the `#` signs that lead it are taken
/// away: `str::trim_start_matches` with the pattern `'#'`, which removes
/// every leading match of it.
#[verifier::external_body]
pub(crate) fn trim_start_hashes(text: &str) -> (trimmed: &str)
    ensures
        trimmed.spec_bytes() == trim_hashes(text.spec_bytes()),
{
    text.trim_start_matches('#')
}

/// Reads a byte from a text of two bytes: `u8::from_str_radix` with the
/// radix 16, which takes digits in either case behind an optional plus
/// sign, and nothing else.
#[verifier::external_body]
fn parse_hex_pair(text: &str) -> (r: Result<u8, ParseIntError>)
    requires
        text.spec_bytes().len() == 2,
    ensures
        match r {
            Ok(value) => hex_pair_value(text.spec_bytes()) == Some(value),
            Err(_) => hex_pair_value(text.spec_bytes()) is None,
        },
{
    u8::from_str_radix(text, 16)
}

/// Cuts the first two bytes off a text and reads a byte from them.
pub(crate) fn take_hex_pair<'a>(text: &'a str) -> (r: (Result<u8, ParseIntError>, &'a str))
    requires
        is_char_boundary(text.spec_bytes(), 2),
    ensures
        r.1.spec_bytes() == text.spec_bytes().skip(2),
        match r.0 {
            Ok(value) => hex_pair_at(text.spec_bytes(), 0) == Some(value),
            Err(_) => hex_pair_at(text.spec_bytes(), 0) is None,
        },
{
    proof {
        encode_utf8_valid_utf8(text@);
        assert(text.spec_bytes().len() >= 2);
    }
    let (pair, rest) = text.split_at(2);
    assert(rest.spec_bytes() =~= text.spec_bytes().skip(2));
    (parse_hex_pair(pair), rest)
}

/// A cut that holds in a text holds in what is left of it behind an
/// earlier cut.
pub proof fn lemma_cut_after_cut(text: Seq<u8>, first: int, second: int)
    requires
        valid_utf8(text),
        0 <= first <= second,
        is_char_boundary(text, first),
        is_char_boundary(text, second),
    ensures
        valid_utf8(text.skip(first)),
        is_char_boundary(text.skip(first), second - first),
{
    assert(first <= text.len() && second <= text.len()) by {
        if first > 0 {
            assert(!(text.len() < first));
        }
        if second > 0 {
            assert(!(text.len() < second));
        }
    }
    let rest = text.skip(first);
    assert(rest =~= text.subrange(first, text.len() as int));
    valid_utf8_split(text, first);
    if second == text.len() {
        is_char_boundary_start_end_of_seq(rest);
    } else {
        is_char_boundary_iff_not_is_continuation_byte(text, second);
        is_char_boundary_iff_not_is_continuation_byte(rest, second - first);
    }
}

} // verus!
