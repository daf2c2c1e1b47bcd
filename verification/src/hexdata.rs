//! Byte strings written in hexadecimal, as they come from the command line
//! or from a file.
//!
//! The text may start with `0x`, any number of times; what follows must be an
//! even number of hex digits, in either letter case. Text read from a file is
//! first freed of the whitespace around it.

use hex::FromHexError;
use vstd::prelude::*;
use vstd::slice::slice_subrange;
use vstd::utf8::encode_utf8;

verus! {

/// `hex::FromHexError`, the error that `hex::decode` reports, with its three
/// variants as the crate defines them.
#[verifier::external_type_specification]
pub struct ExFromHexError(hex::FromHexError);

/// Why a text is no hexadecimal byte string.
#[derive(Debug, Clone, Copy, PartialEq, Eq, Structural)]
pub enum HexError {
    /// `character` at byte `index` of the digits is no hex digit.
    InvalidCharacter { character: char, index: usize },
    /// The number of digits is odd.
    OddLength,
    /// The digits do not fill a buffer of fixed length. Decoding into a
    /// vector has no such buffer and never reports this.
    InvalidLength,
}

/// Whether `c` is whitespace in the sense of `char::is_whitespace`, that is,
/// has the Unicode property `White_Space`.
pub uninterp spec fn is_whitespace(c: char) -> bool;

/// `text` without the whitespace at its start.
pub open spec fn trimmed_start(text: Seq<char>) -> Seq<char>
    decreases text.len(),
{
    if text.len() > 0 && is_whitespace(text.first()) {
        trimmed_start(text.drop_first())
    } else {
        text
    }
}

/// `text` without the whitespace at its end.
pub open spec fn trimmed_end(text: Seq<char>) -> Seq<char>
    decreases text.len(),
{
    if text.len() > 0 && is_whitespace(text.last()) {
        trimmed_end(text.drop_last())
    } else {
        text
    }
}

/// `text` without the whitespace at its start and at its end.
pub open spec fn trimmed(text: Seq<char>) -> Seq<char> {
    trimmed_end(trimmed_start(text))
}

/// Whether `rest` is the stretch of `text` that starts at index `start`, has
/// nothing but whitespace before and after it, and neither starts nor ends
/// with whitespace.
pub open spec fn trims_at(rest: Seq<char>, text: Seq<char>, start: int) -> bool {
    &&& 0 <= start <= text.len() - rest.len()
    &&& rest == text.subrange(start, start + rest.len())
    &&& forall|i: int|
        0 <= i < text.len() && !(start <= i < start + rest.len()) ==> is_whitespace(
            #[trigger] text[i],
        )
    &&& rest.len() > 0 ==> !is_whitespace(rest.first()) && !is_whitespace(rest.last())
}

/// Whether `rest` is a stretch of `text` with nothing but whitespace before
/// and after it that neither starts nor ends with whitespace.
pub open spec fn is_trim_of(rest: Seq<char>, text: Seq<char>) -> bool {
    exists|start: int| #[trigger] trims_at(rest, text, start)
}

/// What `trimmed_start` drops is whitespace, and what it leaves does not
/// start with any.
pub proof fn lemma_trimmed_start(text: Seq<char>)
    ensures
        trimmed_start(text).len() <= text.len(),
        trimmed_start(text) == text.skip(text.len() - trimmed_start(text).len()),
        forall|i: int|
            0 <= i < text.len() - trimmed_start(text).len() ==> is_whitespace(#[trigger] text[i]),
        trimmed_start(text).len() > 0 ==> !is_whitespace(trimmed_start(text).first()),
    decreases text.len(),
{
    if text.len() > 0 && is_whitespace(text.first()) {
        let tail = text.drop_first();
        lemma_trimmed_start(tail);
        let cut: int = tail.len() - trimmed_start(tail).len();
        assert forall|i: int| 0 <= i < cut + 1 implies is_whitespace(#[trigger] text[i]) by {
            if i > 0 {
                assert(text[i] == tail[i - 1]);
            }
        }
    }
}

/// What `trimmed_end` drops is whitespace, and what it leaves does not end
/// with any.
pub proof fn lemma_trimmed_end(text: Seq<char>)
    ensures
        trimmed_end(text).len() <= text.len(),
        trimmed_end(text) == text.take(trimmed_end(text).len() as int),
        forall|i: int|
            trimmed_end(text).len() <= i < text.len() ==> is_whitespace(#[trigger] text[i]),
        trimmed_end(text).len() > 0 ==> !is_whitespace(trimmed_end(text).last()),
    decreases text.len(),
{
    if text.len() > 0 && is_whitespace(text.last()) {
        let front = text.drop_last();
        lemma_trimmed_end(front);
        let kept: int = trimmed_end(front).len() as int;
        assert forall|i: int| kept <= i < text.len() implies is_whitespace(#[trigger] text[i]) by {
            if i < front.len() {
                assert(text[i] == front[i]);
            }
        }
    }
}

/// The trimmed text is a stretch of the text with nothing but whitespace
/// around it, and it neither starts nor ends with whitespace.
pub proof fn lemma_trimmed_is_trim(text: Seq<char>)
    ensures
        is_trim_of(trimmed(text), text),
{
    let inner = trimmed_start(text);
    let rest = trimmed(text);
    lemma_trimmed_start(text);
    lemma_trimmed_end(inner);
    let start: int = text.len() - inner.len();
    assert(rest =~= text.subrange(start, start + rest.len()));
    assert forall|i: int|
        0 <= i < text.len() && !(start <= i < start + rest.len()) implies is_whitespace(
        #[trigger] text[i],
    ) by {
        if i >= start {
            assert(text[i] == inner[i - start]);
        }
    }
    assert(trims_at(rest, text, start));
}

/// A text can be trimmed in one way only.
pub proof fn lemma_trim_is_unique(a: Seq<char>, b: Seq<char>, text: Seq<char>)
    requires
        is_trim_of(a, text),
        is_trim_of(b, text),
    ensures
        a == b,
{
    let s1: int = choose|start: int| #[trigger] trims_at(a, text, start);
    let s2: int = choose|start: int| #[trigger] trims_at(b, text, start);
    if a.len() > 0 && b.len() > 0 {
        // Both start at the first character that is no whitespace, and both
        // end at the last one.
        assert(s1 == s2);
        assert(a.len() == b.len());
    } else {
        // One is empty, so the text is all whitespace, and so is the other.
        assert(a.len() == 0 && b.len() == 0);
    }
}

/// `text` without the `0x` prefixes at its start, however many there are.
pub open spec fn without_prefix(text: Seq<u8>) -> Seq<u8>
    decreases text.len(),
{
    if text.len() >= 2 && text[0] == 0x30 && text[1] == 0x78 {
        without_prefix(text.skip(2))
    } else {
        text
    }
}

/// What `without_prefix` drops is a run of `0x` at the start of the text, and
/// what it leaves does not start with another one.
pub proof fn lemma_without_prefix(text: Seq<u8>)
    ensures
        without_prefix(text).len() <= text.len(),
        (text.len() - without_prefix(text).len()) % 2 == 0,
        without_prefix(text) == text.skip(text.len() - without_prefix(text).len()),
        forall|i: int|
            0 <= i < text.len() - without_prefix(text).len() ==> #[trigger] text[i] == if i % 2
                == 0 {
                0x30u8
            } else {
                0x78u8
            },
        !(without_prefix(text).len() >= 2 && without_prefix(text)[0] == 0x30 && without_prefix(
            text,
        )[1] == 0x78),
    decreases text.len(),
{
    if text.len() >= 2 && text[0] == 0x30 && text[1] == 0x78 {
        let tail = text.skip(2);
        let rest = without_prefix(tail);
        lemma_without_prefix(tail);
        let cut: int = tail.len() - rest.len();
        assert forall|i: int| 0 <= i < cut + 2 implies #[trigger] text[i] == if i % 2 == 0 {
            0x30u8
        } else {
            0x78u8
        } by {
            if i >= 2 {
                assert(text[i] == tail[i - 2]);
            }
        }
    }
}

/// The value of the hex digit `byte`, in either letter case.
pub open spec fn digit_value(byte: u8) -> Option<u8> {
    if 0x30 <= byte <= 0x39 {
        Some((byte - 0x30) as u8)
    } else if 0x61 <= byte <= 0x66 {
        Some((byte - 0x61 + 10) as u8)
    } else if 0x41 <= byte <= 0x46 {
        Some((byte - 0x41 + 10) as u8)
    } else {
        None
    }
}

/// Index of the first byte of `text`, at or after `from`, that is no hex
/// digit.
pub open spec fn first_invalid(text: Seq<u8>, from: int) -> Option<int>
    decreases text.len() - from,
{
    if from < 0 || from >= text.len() {
        None
    } else if digit_value(text[from]).is_none() {
        Some(from)
    } else {
        first_invalid(text, from + 1)
    }
}

/// The bytes that the digit pairs of `digits` spell, high digit first.
pub open spec fn paired(digits: Seq<u8>) -> Seq<u8> {
    Seq::new(
        digits.len() / 2,
        |i: int|
            (16 * digit_value(digits[2 * i]).unwrap() + digit_value(
                digits[2 * i + 1],
            ).unwrap()) as u8,
    )
}

/// What a run of hex digits decodes to.
///
/// An odd number of bytes is reported before any of them is looked at; after
/// that, the first byte that is no hex digit.
pub open spec fn decoded(digits: Seq<u8>) -> Result<Seq<u8>, HexError> {
    if digits.len() % 2 != 0 {
        Err(HexError::OddLength)
    } else {
        match first_invalid(digits, 0) {
            Some(index) => Err(
                HexError::InvalidCharacter {
                    character: digits[index] as char,
                    index: index as usize,
                },
            ),
            None => Ok(paired(digits)),
        }
    }
}

/// Whether `result` holds what `expected` describes.
pub open spec fn holds(
    result: Result<Vec<u8>, HexError>,
    expected: Result<Seq<u8>, HexError>,
) -> bool {
    match expected {
        Ok(bytes) => result is Ok && result->Ok_0@ == bytes,
        Err(error) => result == Err::<Vec<u8>, HexError>(error),
    }
}

/// The error of the library that stands for `error`.
pub open spec fn hex_error(error: FromHexError) -> HexError {
    match error {
        FromHexError::InvalidHexCharacter { c, index } => HexError::InvalidCharacter {
            character: c,
            index,
        },
        FromHexError::OddLength => HexError::OddLength,
        FromHexError::InvalidStringLength => HexError::InvalidLength,
    }
}

/// Decodes a run of hex digits.
///
/// Calls `hex::decode`. The contract restates what that function does: it
/// refuses input of odd length, then reports the first byte that is none of
/// `0-9`, `a-f`, `A-F` together with its index, and otherwise returns one
/// byte for each pair of digits, the first digit of a pair being the high
/// half.
#[verifier::external_body]
fn decode_digits(digits: &[u8]) -> (result: Result<Vec<u8>, FromHexError>)
    ensures
        match decoded(digits@) {
            Ok(bytes) => result is Ok && result->Ok_0@ == bytes,
            Err(error) => result is Err && hex_error(result->Err_0) == error,
        },
{
    hex::decode(digits)
}

/// Removes leading and trailing whitespace.
///
/// Calls `str::trim`, which removes the characters that
/// `char::is_whitespace` accepts from both ends.
#[verifier::external_body]
fn trim(text: &str) -> (rest: &str)
    ensures
        exists|start: int|
            0 <= start <= text@.len() - rest@.len() && rest@ == #[trigger] text@.subrange(
                start,
                start + rest@.len(),
            ) && (forall|i: int|
                0 <= i < text@.len() && !(start <= i < start + rest@.len()) ==> is_whitespace(
                    #[trigger] text@[i],
                )) && (rest@.len() > 0 ==> !is_whitespace(rest@.first()) && !is_whitespace(
                rest@.last(),
            )),
{
    text.trim()
}

/// Skips the `0x` prefixes at the start of `text`, however many there are.
pub fn strip_prefix(text: &[u8]) -> (rest: &[u8])
    ensures
        rest@ == without_prefix(text@),
{
    let len: usize = text.len();
    let mut start: usize = 0;
    assert(text@.skip(0) =~= text@);
    while len - start >= 2 && text[start] == 0x30 && text[start + 1] == 0x78
        invariant
            start <= len,
            len == text.len(),
            without_prefix(text@) == without_prefix(text@.skip(start as int)),
        decreases len - start,
    {
        assert(text@.skip(start as int).skip(2) =~= text@.skip(start + 2));
        start += 2;
    }
    slice_subrange(text, start, len)
}

/// Decodes a hexadecimal byte string that may start with `0x`.
pub fn decode_bytes(text: &[u8]) -> (result: Result<Vec<u8>, HexError>)
    ensures
        holds(result, decoded(without_prefix(text@))),
{
    match decode_digits(strip_prefix(text)) {
        Ok(bytes) => Ok(bytes),
        Err(FromHexError::InvalidHexCharacter { c, index }) => Err(
            HexError::InvalidCharacter { character: c, index },
        ),
        Err(FromHexError::OddLength) => Err(HexError::OddLength),
        Err(FromHexError::InvalidStringLength) => Err(HexError::InvalidLength),
    }
}

/// Decodes a hexadecimal byte string that may start with `0x`.
pub fn decode_hex(text: &str) -> (result: Result<Vec<u8>, HexError>)
    ensures
        holds(result, decoded(without_prefix(encode_utf8(text@)))),
{
    decode_bytes(text.as_bytes())
}

/// Decodes the contents of a file that holds a hexadecimal byte string:
/// whitespace around the text is dropped, then the text is read as by
/// [`decode_hex`].
pub fn decode_hex_file(contents: &str) -> (result: Result<Vec<u8>, HexError>)
    ensures
        holds(result, decoded(without_prefix(encode_utf8(trimmed(contents@))))),
{
    let text: &str = trim(contents);
    proof {
        let start: int = choose|start: int|
            0 <= start <= contents@.len() - text@.len() && text@ == #[trigger] contents@.subrange(
                start,
                start + text@.len(),
            ) && (forall|i: int|
                0 <= i < contents@.len() && !(start <= i < start + text@.len()) ==> is_whitespace(
                    #[trigger] contents@[i],
                )) && (text@.len() > 0 ==> !is_whitespace(text@.first()) && !is_whitespace(
                text@.last(),
            ));
        assert(trims_at(text@, contents@, start));
        lemma_trimmed_is_trim(contents@);
        lemma_trim_is_unique(text@, trimmed(contents@), contents@);
    }
    decode_hex(text)
}

} // verus!
