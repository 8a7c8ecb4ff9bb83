//! Building text character by character.

use vstd::prelude::*;

verus! {

/// Appends a character to a string: `String::push`.
#[verifier::external_body]
pub(crate) fn push_char(text: &mut String, c: char)
    ensures
        final(text)@ == old(text)@.push(c),
{
    text.push(c)
}

/// The character of a decimal digit.
pub open spec fn decimal_digit(d: int) -> char {
    if d == 0 {
        '0'
    } else if d == 1 {
        '1'
    } else if d == 2 {
        '2'
    } else if d == 3 {
        '3'
    } else if d == 4 {
        '4'
    } else if d == 5 {
        '5'
    } else if d == 6 {
        '6'
    } else if d == 7 {
        '7'
    } else if d == 8 {
        '8'
    } else {
        '9'
    }
}

/// A natural number in decimal digits, without leading zeros.
pub open spec fn decimal_digits(n: nat) -> Seq<char>
    decreases n,
{
    if n < 10 {
        seq![decimal_digit(n as int)]
    } else {
        decimal_digits(n / 10).push(decimal_digit(n as int % 10))
    }
}

/// An integer in decimal digits, with a minus sign where it is negative.
pub open spec fn decimal(i: int) -> Seq<char> {
    if i < 0 {
        seq!['-'] + decimal_digits((-i) as nat)
    } else {
        decimal_digits(i as nat)
    }
}

/// The character of the decimal digit `d`.
fn decimal_digit_char(d: u16) -> (c: char)
    requires
        d < 10,
    ensures
        c == decimal_digit(d as int),
{
    if d == 0 {
        '0'
    } else if d == 1 {
        '1'
    } else if d == 2 {
        '2'
    } else if d == 3 {
        '3'
    } else if d == 4 {
        '4'
    } else if d == 5 {
        '5'
    } else if d == 6 {
        '6'
    } else if d == 7 {
        '7'
    } else if d == 8 {
        '8'
    } else {
        '9'
    }
}

/// Appends a natural number in decimal digits.
fn push_decimal_digits(text: &mut String, n: u16)
    ensures
        final(text)@ == old(text)@ + decimal_digits(n as nat),
    decreases n,
{
    if n < 10 {
        push_char(text, decimal_digit_char(n));
        assert(text@ =~= old(text)@ + decimal_digits(n as nat));
    } else {
        push_decimal_digits(text, n / 10);
        push_char(text, decimal_digit_char(n % 10));
        assert(text@ =~= old(text)@ + decimal_digits(n as nat));
    }
}

/// Appends an integer in decimal digits, with a minus sign where it is
/// negative.
pub(crate) fn push_decimal(text: &mut String, value: i16)
    ensures
        final(text)@ == old(text)@ + decimal(value as int),
{
    if value < 0 {
        push_char(text, '-');
        // The size of the least number has no place in its own type.
        let size: u16 = if value == i16::MIN {
            32768
        } else {
            (-value) as u16
        };
        push_decimal_digits(text, size);
        assert(text@ =~= old(text)@ + decimal(value as int));
    } else {
        push_decimal_digits(text, value as u16);
    }
}

} // verus!
