//! The window title: how large a buffer to ask the operating system to fill,
//! and how the filled buffer becomes text.

use crate::query::OsError;
use vstd::prelude::*;

verus! {

/// The character that stands in for a code unit that cannot be decoded.
pub const REPLACEMENT_CHARACTER: char = '\u{FFFD}';

/// A code unit that opens a surrogate pair.
pub open spec fn is_high_surrogate(unit: u16) -> bool {
    0xD800 <= unit <= 0xDBFF
}

/// A code unit that closes a surrogate pair.
pub open spec fn is_low_surrogate(unit: u16) -> bool {
    0xDC00 <= unit <= 0xDFFF
}

/// The character beyond the basic plane that the pair `high`, `low` encodes.
pub open spec fn surrogate_pair(high: u16, low: u16) -> char {
    (0x10000 + (high - 0xD800) * 0x400 + (low - 0xDC00)) as char
}

/// The text that a sequence of UTF-16 code units stands for, read leniently.
///
/// A high surrogate directly followed by a low one is the character of that
/// pair. Any other surrogate is replaced, each by one
/// [`REPLACEMENT_CHARACTER`]. Every other code unit is the character with
/// that code point. Nothing is dropped and nothing ends the text early: a
/// zero code unit is the character `U+0000`.
pub open spec fn decode_utf16_lossy(units: Seq<u16>) -> Seq<char>
    decreases units.len(),
{
    if units.len() == 0 {
        Seq::empty()
    } else if is_high_surrogate(units[0]) && units.len() >= 2 && is_low_surrogate(units[1]) {
        seq![surrogate_pair(units[0], units[1])] + decode_utf16_lossy(units.skip(2))
    } else if is_high_surrogate(units[0]) || is_low_surrogate(units[0]) {
        seq![REPLACEMENT_CHARACTER] + decode_utf16_lossy(units.skip(1))
    } else {
        seq![units[0] as char] + decode_utf16_lossy(units.skip(1))
    }
}

/// Decodes UTF-16 code units into a string, replacing each surrogate that
/// belongs to no pair by [`REPLACEMENT_CHARACTER`].
pub fn utf16_lossy(units: &[u16]) -> (text: String)
    ensures
        text@ == decode_utf16_lossy(units@),
{
    let mut text = String::new();
    let mut i: usize = 0;
    assert(units@.skip(0) =~= units@);
    assert(text@ + decode_utf16_lossy(units@) =~= decode_utf16_lossy(units@));
    while i < units.len()
        invariant
            i <= units.len(),
            text@ + decode_utf16_lossy(units@.skip(i as int)) == decode_utf16_lossy(units@),
        decreases units.len() - i,
    {
        let ghost rest = units@.skip(i as int);
        let ghost before = text@;
        let unit = units[i];
        assert(rest[0] == unit);
        let mut step: usize = 1;
        match char::from_u32(unit as u32) {
            Some(c) => {
                text.push(c);
            },
            None => {
                if unit <= 0xDBFF && i + 1 < units.len() && 0xDC00 <= units[i + 1] && units[i + 1]
                    <= 0xDFFF {
                    let low = units[i + 1];
                    assert(rest[1] == low);
                    let high_bits: u32 = (unit - 0xD800) as u32;
                    let low_bits: u32 = (low - 0xDC00) as u32;
                    let code: u32 = 0x10000 + high_bits * 0x400 + low_bits;
                    let pair = char::from_u32(code);
                    text.push(pair.unwrap());
                    step = 2;
                } else {
                    text.push(REPLACEMENT_CHARACTER);
                }
            },
        }
        proof {
            assert(rest.skip(step as int) =~= units@.skip(i + step));
            assert(text@ + decode_utf16_lossy(units@.skip(i + step)) =~= before
                + decode_utf16_lossy(rest));
        }
        i = i + step;
    }
    assert(units@.skip(i as int) =~= Seq::<u16>::empty());
    assert(text@ =~= decode_utf16_lossy(units@));
    text
}

/// What the operating system reported of filling the title buffer.
#[derive(Debug, PartialEq, Eq)]
pub struct TitleFill {
    /// The number of characters that the fill reported as written.
    pub written: i32,
    /// The buffer after the fill, whole.
    pub buffer: Vec<u16>,
    /// The operating system's last error code, read right after the fill.
    pub last_error: i32,
}

/// The number of code units that the title buffer must hold for a title of
/// the reported length `text_len`: one more than the length, for the
/// terminator. `None` when the reported length is zero or negative: the
/// window has no title and nothing is to be filled.
pub open spec fn title_capacity(text_len: i32) -> Option<usize> {
    if text_len > 0 {
        Some((text_len + 1) as usize)
    } else {
        None
    }
}

/// The title that a filled buffer holds. A fill that reports no character
/// written is a failure that carries the last error code. Any other fill
/// gives the whole buffer, decoded by [`decode_utf16_lossy`].
pub open spec fn filled_title(written: i32, buffer: Seq<u16>, last_error: i32) -> Result<
    Seq<char>,
    OsError,
> {
    if written == 0 {
        Err(OsError { code: last_error })
    } else {
        Ok(decode_utf16_lossy(buffer))
    }
}

/// The title of a window whose title length was reported as `text_len`.
///
/// With a length of zero or less the title is empty, and that is a success
/// whatever `written`, `buffer` and `last_error` hold. Otherwise the title is
/// what the filled buffer holds, as [`filled_title`] defines it.
pub open spec fn window_title_text(
    text_len: i32,
    written: i32,
    buffer: Seq<u16>,
    last_error: i32,
) -> Result<Seq<char>, OsError> {
    if text_len <= 0 {
        Ok(Seq::empty())
    } else {
        filled_title(written, buffer, last_error)
    }
}

/// Whether `result` is the outcome `expected`: the same error, or a string
/// of the same characters.
pub open spec fn title_matches(
    result: Result<String, OsError>,
    expected: Result<Seq<char>, OsError>,
) -> bool {
    match result {
        Ok(title) => expected == Ok::<Seq<char>, OsError>(title@),
        Err(error) => expected == Err::<Seq<char>, OsError>(error),
    }
}

/// Computes the size of the title buffer for a reported title length, as
/// [`title_capacity`] defines it.
pub fn title_buffer_len(text_len: i32) -> (capacity: Option<usize>)
    ensures
        capacity == title_capacity(text_len),
{
    if text_len > 0 {
        Some(text_len as usize + 1)
    } else {
        None
    }
}

/// Reads the title out of a filled buffer, as [`filled_title`] defines it.
pub fn title_from_fill(fill: &TitleFill) -> (result: Result<String, OsError>)
    ensures
        title_matches(result, filled_title(fill.written, fill.buffer@, fill.last_error)),
{
    if fill.written == 0 {
        Err(OsError { code: fill.last_error })
    } else {
        Ok(utf16_lossy(fill.buffer.as_slice()))
    }
}

/// Determines the window title from the reported title length and, where a
/// buffer was filled, from what the fill reported.
///
/// For a window without a title (`text_len <= 0`) no buffer is filled, `fill`
/// is not looked at, and the result is the empty string: never a failure.
pub fn get_window_title_text(text_len: i32, fill: &TitleFill) -> (result: Result<String, OsError>)
    ensures
        title_matches(
            result,
            window_title_text(text_len, fill.written, fill.buffer@, fill.last_error),
        ),
        text_len <= 0 ==> result is Ok && result->Ok_0@ == Seq::<char>::empty(),
{
    if text_len > 0 {
        title_from_fill(fill)
    } else {
        Ok(String::new())
    }
}

} // verus!
