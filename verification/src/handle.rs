//! The window handle and how it is read from hexadecimal text.

use vstd::prelude::*;

verus! {

/// The operating system's identifier of a window. It is an opaque token: the
/// number inside serves only to be handed back to the operating system.
#[derive(Clone, Copy, Debug, PartialEq, Eq, Structural)]
pub struct WindowHandle {
    pub raw: i32,
}

/// Why a text is no window handle.
#[derive(Clone, Copy, Debug, PartialEq, Eq, Structural)]
pub enum ParseHandleError {
    /// Nothing is left once the surrounding whitespace is removed.
    Empty,
    /// A character that is no hexadecimal digit stands among the digits.
    InvalidDigit,
    /// The digits are all hexadecimal, but the number is above the largest
    /// `i64`.
    OutOfRange,
}

/// Whether `c` is whitespace: a character with the Unicode property
/// `White_Space`.
pub open spec fn is_whitespace(c: char) -> bool {
    let code = c as int;
    ||| 0x09 <= code <= 0x0D
    ||| code == 0x20
    ||| code == 0x85
    ||| code == 0xA0
    ||| code == 0x1680
    ||| 0x2000 <= code <= 0x200A
    ||| code == 0x2028
    ||| code == 0x2029
    ||| code == 0x202F
    ||| code == 0x205F
    ||| code == 0x3000
}

/// Whether every character of `s` is whitespace.
pub open spec fn all_whitespace(s: Seq<char>) -> bool {
    forall|i: int| 0 <= i < s.len() ==> is_whitespace(#[trigger] s[i])
}

/// `s` without the whitespace at its start.
pub open spec fn trim_start(s: Seq<char>) -> Seq<char>
    decreases s.len(),
{
    if s.len() > 0 && is_whitespace(s[0]) {
        trim_start(s.drop_first())
    } else {
        s
    }
}

/// `s` without the whitespace at its end.
pub open spec fn trim_end(s: Seq<char>) -> Seq<char>
    decreases s.len(),
{
    if s.len() > 0 && is_whitespace(s.last()) {
        trim_end(s.drop_last())
    } else {
        s
    }
}

/// `s` without the whitespace at its start and at its end.
pub open spec fn trim(s: Seq<char>) -> Seq<char> {
    trim_end(trim_start(s))
}

/// Whether `c` is one of `0`-`9`, `a`-`f`, `A`-`F`.
pub open spec fn is_hex_digit(c: char) -> bool {
    let code = c as int;
    ||| 0x30 <= code <= 0x39
    ||| 0x41 <= code <= 0x46
    ||| 0x61 <= code <= 0x66
}

/// The number that the hexadecimal digit `c` stands for.
pub open spec fn hex_digit_value(c: char) -> int
    recommends
        is_hex_digit(c),
{
    let code = c as int;
    if code <= 0x39 {
        code - 0x30
    } else if code <= 0x46 {
        code - 0x41 + 10
    } else {
        code - 0x61 + 10
    }
}

/// Whether every character of `s` is a hexadecimal digit.
pub open spec fn all_hex_digits(s: Seq<char>) -> bool {
    forall|i: int| 0 <= i < s.len() ==> is_hex_digit(#[trigger] s[i])
}

/// The number that the hexadecimal digits `digits` spell, most significant
/// digit first.
pub open spec fn hex_value(digits: Seq<char>) -> int
    recommends
        all_hex_digits(digits),
    decreases digits.len(),
{
    if digits.len() == 0 {
        0
    } else {
        16 * hex_value(digits.drop_last()) + hex_digit_value(digits.last())
    }
}

/// The `i32` with the same low 32 bits as `v`, in two's complement.
pub open spec fn wrap_to_i32(v: int) -> i32 {
    let low = v % 0x1_0000_0000;
    if low >= 0x8000_0000 {
        (low - 0x1_0000_0000) as i32
    } else {
        low as i32
    }
}

/// The window handle that `text` denotes.
///
/// Whitespace around the text is ignored. What is left must be one or more
/// hexadecimal digits, with no sign and no prefix, that spell a number up to
/// the largest `i64`. The handle is that number cut to its low 32 bits, so
/// `FFFFFFFF` is the handle `-1`.
pub open spec fn parse_hex_handle(text: Seq<char>) -> Result<WindowHandle, ParseHandleError> {
    let digits = trim(text);
    if digits.len() == 0 {
        Err(ParseHandleError::Empty)
    } else if !all_hex_digits(digits) {
        Err(ParseHandleError::InvalidDigit)
    } else if hex_value(digits) > i64::MAX {
        Err(ParseHandleError::OutOfRange)
    } else {
        Ok(WindowHandle { raw: wrap_to_i32(hex_value(digits)) })
    }
}

/// Tests a character for whitespace.
pub fn char_is_whitespace(c: char) -> (ws: bool)
    ensures
        ws == is_whitespace(c),
{
    let code: u32 = c as u32;
    (0x09 <= code && code <= 0x0D) || code == 0x20 || code == 0x85 || code == 0xA0 || code
        == 0x1680 || (0x2000 <= code && code <= 0x200A) || code == 0x2028 || code == 0x2029
        || code == 0x202F || code == 0x205F || code == 0x3000
}

/// The value of a hexadecimal digit, or `None` for any other character.
pub fn hex_digit(c: char) -> (digit: Option<u8>)
    ensures
        digit is Some <==> is_hex_digit(c),
        digit matches Some(d) ==> d == hex_digit_value(c),
{
    let code: u32 = c as u32;
    if 0x30 <= code && code <= 0x39 {
        Some((code - 0x30) as u8)
    } else if 0x41 <= code && code <= 0x46 {
        Some((code - 0x41 + 10) as u8)
    } else if 0x61 <= code && code <= 0x66 {
        Some((code - 0x61 + 10) as u8)
    } else {
        None
    }
}

/// Where the whitespace at the start of `s` ends: `trim_start(s)` is `s`
/// from index `k` on when everything before `k` is whitespace and the
/// character at `k`, if there is one, is not.
pub proof fn lemma_trim_start_skips(s: Seq<char>, k: int)
    requires
        0 <= k <= s.len(),
        forall|j: int| 0 <= j < k ==> is_whitespace(#[trigger] s[j]),
        k == s.len() || !is_whitespace(s[k]),
    ensures
        trim_start(s) == s.skip(k),
    decreases k,
{
    if k == 0 {
        assert(s.skip(0) =~= s);
    } else {
        let rest = s.drop_first();
        assert forall|j: int| 0 <= j < k - 1 implies is_whitespace(#[trigger] rest[j]) by {
            assert(rest[j] == s[j + 1]);
        }
        lemma_trim_start_skips(rest, k - 1);
        assert(rest.skip(k - 1) =~= s.skip(k));
    }
}

/// Where the whitespace at the end of `s` starts: `trim_end(s)` is the first
/// `k` characters of `s` when everything from `k` on is whitespace and the
/// character before `k`, if there is one, is not.
pub proof fn lemma_trim_end_takes(s: Seq<char>, k: int)
    requires
        0 <= k <= s.len(),
        forall|j: int| k <= j < s.len() ==> is_whitespace(#[trigger] s[j]),
        k == 0 || !is_whitespace(s[k - 1]),
    ensures
        trim_end(s) == s.take(k),
    decreases s.len() - k,
{
    if k == s.len() {
        assert(s.take(k) =~= s);
    } else {
        let rest = s.drop_last();
        assert forall|j: int| k <= j < rest.len() implies is_whitespace(#[trigger] rest[j]) by {
            assert(rest[j] == s[j]);
        }
        lemma_trim_end_takes(rest, k);
        assert(rest.take(k) =~= s.take(k));
    }
}

/// The index at which the whitespace at the start of `s` ends.
proof fn leading_whitespace_end(s: Seq<char>) -> (k: int)
    ensures
        0 <= k <= s.len(),
        forall|j: int| 0 <= j < k ==> is_whitespace(#[trigger] s[j]),
        k == s.len() || !is_whitespace(s[k]),
        trim_start(s) == s.skip(k),
    decreases s.len(),
{
    if s.len() > 0 && is_whitespace(s[0]) {
        let rest = s.drop_first();
        let k = leading_whitespace_end(rest);
        assert forall|j: int| 0 <= j < k + 1 implies is_whitespace(#[trigger] s[j]) by {
            if j > 0 {
                assert(s[j] == rest[j - 1]);
            }
        }
        if k < rest.len() {
            assert(s[k + 1] == rest[k]);
        }
        lemma_trim_start_skips(s, k + 1);
        k + 1
    } else {
        lemma_trim_start_skips(s, 0);
        0
    }
}

/// The index at which the whitespace at the end of `s` starts.
proof fn trailing_whitespace_start(s: Seq<char>) -> (k: int)
    ensures
        0 <= k <= s.len(),
        forall|j: int| k <= j < s.len() ==> is_whitespace(#[trigger] s[j]),
        k == 0 || !is_whitespace(s[k - 1]),
        trim_end(s) == s.take(k),
    decreases s.len(),
{
    if s.len() > 0 && is_whitespace(s.last()) {
        let rest = s.drop_last();
        let k = trailing_whitespace_start(rest);
        assert forall|j: int| k <= j < s.len() implies is_whitespace(#[trigger] s[j]) by {
            if j < rest.len() {
                assert(s[j] == rest[j]);
            }
        }
        if k > 0 {
            assert(s[k - 1] == rest[k - 1]);
        }
        lemma_trim_end_takes(s, k);
        k
    } else {
        lemma_trim_end_takes(s, s.len() as int);
        s.len() as int
    }
}

/// Whitespace around a text changes neither what is left of it after
/// trimming nor the handle it parses to: with `before` and `after` made of
/// whitespace only, `before + text + after` parses exactly as `text` does,
/// to the same handle or to the same error.
pub proof fn lemma_surrounding_whitespace_ignored(
    before: Seq<char>,
    text: Seq<char>,
    after: Seq<char>,
)
    requires
        all_whitespace(before),
        all_whitespace(after),
    ensures
        trim(before + text + after) == trim(text),
        parse_hex_handle(before + text + after) == parse_hex_handle(text),
{
    let whole = before + text + after;
    let k = leading_whitespace_end(text);
    let tail = text.skip(k);
    if k == text.len() {
        assert forall|j: int| 0 <= j < whole.len() implies is_whitespace(#[trigger] whole[j]) by {
            if j < before.len() {
                assert(whole[j] == before[j]);
            } else if j < before.len() + text.len() {
                assert(whole[j] == text[j - before.len()]);
            } else {
                assert(whole[j] == after[j - before.len() - text.len()]);
            }
        }
        lemma_trim_start_skips(whole, whole.len() as int);
        assert(whole.skip(whole.len() as int) =~= tail);
    } else {
        let e = trailing_whitespace_start(tail);
        assert(tail[0] == text[k]);
        assert(e > 0);
        let lead = before.len() + k;
        assert forall|j: int| 0 <= j < lead implies is_whitespace(#[trigger] whole[j]) by {
            if j < before.len() {
                assert(whole[j] == before[j]);
            } else {
                assert(whole[j] == text[j - before.len()]);
            }
        }
        assert(whole[lead] == text[k]);
        lemma_trim_start_skips(whole, lead);
        let padded = tail + after;
        assert(whole.skip(lead) =~= padded);
        assert forall|j: int| e <= j < padded.len() implies is_whitespace(#[trigger] padded[j]) by {
            if j < tail.len() {
                assert(padded[j] == tail[j]);
            } else {
                assert(padded[j] == after[j - tail.len()]);
            }
        }
        assert(padded[e - 1] == tail[e - 1]);
        lemma_trim_end_takes(padded, e);
        assert(padded.take(e) =~= tail.take(e));
    }
}

/// A character that is no hexadecimal digit makes the parse fail wherever it
/// stands, unless it belongs to the whitespace around the text. It does not
/// belong to it when a character that is no whitespace stands at or before
/// it (`first`) and one stands at or after it (`last`). The text is then
/// rejected as a whole: no part of it is read as a number.
pub proof fn lemma_non_hex_character_rejected(text: Seq<char>, first: int, at: int, last: int)
    requires
        0 <= first <= at <= last < text.len(),
        !is_whitespace(text[first]),
        !is_whitespace(text[last]),
        !is_hex_digit(text[at]),
    ensures
        parse_hex_handle(text) == Err::<WindowHandle, ParseHandleError>(
            ParseHandleError::InvalidDigit,
        ),
{
    let k = leading_whitespace_end(text);
    assert(k <= first) by {
        if first < k {
            assert(is_whitespace(text[first]));
        }
    }
    let tail = text.skip(k);
    let e = trailing_whitespace_start(tail);
    assert(last - k < e) by {
        if e <= last - k {
            assert(tail[last - k] == text[last]);
            assert(is_whitespace(tail[last - k]));
        }
    }
    let digits = tail.take(e);
    assert(digits == trim(text));
    assert(digits[at - k] == text[at]);
}

/// A character that is neither a hexadecimal digit nor whitespace makes the
/// parse fail wherever it stands.
pub proof fn lemma_foreign_character_rejected(text: Seq<char>, at: int)
    requires
        0 <= at < text.len(),
        !is_whitespace(text[at]),
        !is_hex_digit(text[at]),
    ensures
        parse_hex_handle(text) == Err::<WindowHandle, ParseHandleError>(
            ParseHandleError::InvalidDigit,
        ),
{
    lemma_non_hex_character_rejected(text, at, at, at);
}

/// The characters of `text`, one by one.
fn collect_chars(text: &str) -> (chars: Vec<char>)
    ensures
        chars@ == text@,
{
    broadcast use vstd::string::group_string_axioms;

    let mut chars: Vec<char> = Vec::new();
    for c in it: text.chars()
        invariant
            it.seq() == text@,
            chars@ =~= text@.take(it.index() as int),
    {
        chars.push(c);
    }
    assert(chars@ =~= text@);
    chars
}

/// Finds the part of `chars` that is left when the surrounding whitespace is
/// removed, as a range of indices.
fn trim_bounds(chars: &Vec<char>) -> (bounds: (usize, usize))
    ensures
        bounds.0 <= bounds.1 <= chars.len(),
        chars@.subrange(bounds.0 as int, bounds.1 as int) == trim(chars@),
{
    let mut start: usize = 0;
    while start < chars.len() && char_is_whitespace(chars[start])
        invariant
            start <= chars.len(),
            forall|j: int| 0 <= j < start ==> is_whitespace(#[trigger] chars@[j]),
        decreases chars.len() - start,
    {
        start = start + 1;
    }
    let mut end: usize = chars.len();
    while end > start && char_is_whitespace(chars[end - 1])
        invariant
            start <= end <= chars.len(),
            forall|j: int| end <= j < chars.len() ==> is_whitespace(#[trigger] chars@[j]),
        decreases end,
    {
        end = end - 1;
    }
    proof {
        let tail = chars@.skip(start as int);
        lemma_trim_start_skips(chars@, start as int);
        assert forall|j: int| end - start <= j < tail.len() implies is_whitespace(
            #[trigger] tail[j],
        ) by {
            assert(tail[j] == chars@[j + start]);
        }
        lemma_trim_end_takes(tail, end - start);
        assert(tail.take(end - start) =~= chars@.subrange(start as int, end as int));
    }
    (start, end)
}

/// Reads a window handle from hexadecimal text, as [`parse_hex_handle`]
/// defines it.
pub fn parse_handle(text: &str) -> (result: Result<WindowHandle, ParseHandleError>)
    ensures
        result == parse_hex_handle(text@),
{
    let chars = collect_chars(text);
    let (start, end) = trim_bounds(&chars);
    if start == end {
        return Err(ParseHandleError::Empty);
    }
    let ghost digits = chars@.subrange(start as int, end as int);
    let mut value: u64 = 0;
    let mut too_large = false;
    let mut i: usize = start;
    while i < end
        invariant
            start <= i <= end <= chars.len(),
            start < end,
            digits == chars@.subrange(start as int, end as int),
            digits == trim(text@),
            all_hex_digits(digits.take(i - start)),
            !too_large ==> value == hex_value(digits.take(i - start)) && value <= i64::MAX,
            too_large ==> hex_value(digits.take(i - start)) > i64::MAX,
        decreases end - i,
    {
        let ghost seen = digits.take(i - start);
        let ghost next = digits.take(i + 1 - start);
        proof {
            assert(next.drop_last() =~= seen);
            assert(next.last() == chars@[i as int]);
        }
        match hex_digit(chars[i]) {
            None => {
                assert(!is_hex_digit(digits[i - start]));
                return Err(ParseHandleError::InvalidDigit);
            },
            Some(d) => {
                assert forall|j: int| 0 <= j < next.len() implies is_hex_digit(
                    #[trigger] next[j],
                ) by {
                    if j < seen.len() {
                        assert(next[j] == seen[j]);
                    }
                }
                if !too_large {
                    if value > (0x7FFF_FFFF_FFFF_FFFF - d as u64) / 16 {
                        too_large = true;
                    } else {
                        value = value * 16 + d as u64;
                    }
                }
            },
        }
        i = i + 1;
    }
    assert(digits.take(end - start) =~= digits);
    if too_large {
        return Err(ParseHandleError::OutOfRange);
    }
    let low: u64 = value % 0x1_0000_0000;
    let raw: i32 = if low >= 0x8000_0000 {
        (low as i64 - 0x1_0000_0000) as i32
    } else {
        low as i32
    };
    Ok(WindowHandle { raw })
}

} // verus!
