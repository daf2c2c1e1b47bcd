//! Unsigned decimal numbers as they appear on a command line.
//!
//! A number is an optional `+` followed by one or more ASCII digits. Leading
//! zeros are allowed; anything else, including surrounding whitespace, is
//! not.

use vstd::prelude::*;
use vstd::utf8::encode_utf8;

verus! {

/// Whether `byte` is one of the ASCII digits `0` to `9`.
pub open spec fn is_digit(byte: u8) -> bool {
    0x30 <= byte <= 0x39
}

/// Whether `text` holds ASCII digits and nothing else.
pub open spec fn all_digits(text: Seq<u8>) -> bool {
    forall|i: int| 0 <= i < text.len() ==> is_digit(#[trigger] text[i])
}

/// The number that the digits of `digits` spell in base ten.
pub open spec fn decimal_value(digits: Seq<u8>) -> nat
    decreases digits.len(),
{
    if digits.len() == 0 {
        0
    } else {
        decimal_value(digits.drop_last()) * 10 + (digits.last() - 0x30) as nat
    }
}

/// `text` without the `+` that may lead it.
pub open spec fn without_sign(text: Seq<u8>) -> Seq<u8> {
    if text.len() > 0 && text[0] == 0x2b {
        text.skip(1)
    } else {
        text
    }
}

/// The number that `text` spells, provided `text` is a well-formed number
/// that does not exceed `max`.
pub open spec fn parse_unsigned(text: Seq<u8>, max: nat) -> Option<nat> {
    let digits = without_sign(text);
    if digits.len() > 0 && all_digits(digits) && decimal_value(digits) <= max {
        Some(decimal_value(digits))
    } else {
        None
    }
}

/// A digit string spells at least what any of its prefixes spells.
pub proof fn lemma_decimal_value_grows(digits: Seq<u8>, n: int)
    requires
        all_digits(digits),
        0 <= n <= digits.len(),
    ensures
        decimal_value(digits.take(n)) <= decimal_value(digits),
    decreases digits.len() - n,
{
    if n == digits.len() {
        assert(digits.take(n) =~= digits);
    } else {
        let shorter = digits.drop_last();
        assert(shorter.take(n) =~= digits.take(n));
        assert(all_digits(shorter));
        lemma_decimal_value_grows(shorter, n);
    }
}

/// Parses `text` as an unsigned decimal number no larger than `max`.
pub fn parse_decimal(text: &[u8], max: u64) -> (number: Option<u64>)
    ensures
        match parse_unsigned(text@, max as nat) {
            Some(value) => number == Some(value as u64),
            None => number.is_none(),
        },
{
    let len: usize = text.len();
    let start: usize = if len > 0 && text[0] == 0x2b {
        1
    } else {
        0
    };
    let ghost digits = without_sign(text@);
    if start == len {
        return None;
    }
    let mut value: u64 = 0;
    let mut i: usize = start;
    while i < len
        invariant
            start <= i <= len,
            len == text.len(),
            digits == without_sign(text@),
            digits == text@.subrange(start as int, len as int),
            all_digits(digits.take(i - start)),
            value == decimal_value(digits.take(i - start)),
            value <= max,
        decreases len - i,
    {
        let byte: u8 = text[i];
        if byte < 0x30 || byte > 0x39 {
            assert(!is_digit(digits[i - start]));
            return None;
        }
        let digit: u64 = (byte - 0x30) as u64;
        proof {
            let longer = digits.take(i - start + 1);
            assert(longer.drop_last() =~= digits.take(i - start));
            assert(all_digits(longer));
        }
        if digit > max || value > (max - digit) / 10 {
            proof {
                if all_digits(digits) {
                    lemma_decimal_value_grows(digits, i - start + 1);
                }
            }
            return None;
        }
        value = value * 10 + digit;
        i += 1;
    }
    assert(digits.take(i - start) =~= digits);
    Some(value)
}

/// Parses `text` the way `u8` values are read from the command line.
pub fn parse_u8(text: &str) -> (number: Option<u8>)
    ensures
        match parse_unsigned(encode_utf8(text@), u8::MAX as nat) {
            Some(value) => number == Some(value as u8),
            None => number.is_none(),
        },
{
    match parse_decimal(text.as_bytes(), 0xFF) {
        Some(value) => Some(value as u8),
        None => None,
    }
}

/// Parses `text` the way `u32` values are read from the command line.
pub fn parse_u32(text: &str) -> (number: Option<u32>)
    ensures
        match parse_unsigned(encode_utf8(text@), u32::MAX as nat) {
            Some(value) => number == Some(value as u32),
            None => number.is_none(),
        },
{
    match parse_decimal(text.as_bytes(), 0xFFFF_FFFF) {
        Some(value) => Some(value as u32),
        None => None,
    }
}

} // verus!
