//! Contracts for the two functions of the standard library that this crate
//! builds text with and that `vstd` leaves without one. Verus takes both on
//! trust.

use vstd::prelude::*;

verus! {

/// Whether `code` is a Unicode scalar value: a code point up to `U+10FFFF`
/// that is not a surrogate.
pub open spec fn is_scalar_value(code: int) -> bool {
    0 <= code <= 0xD7FF || 0xE000 <= code <= 0x10FFFF
}

/// `String::push` appends the one character to the end of the string and
/// leaves what was there before in place.
pub assume_specification[ String::push ](text: &mut String, ch: char)
    ensures
        final(text)@ == old(text)@.push(ch),
;

/// `char::from_u32` gives the character with the code point `code` when that
/// is a Unicode scalar value, and `None` for a surrogate or a number above
/// `U+10FFFF`.
pub assume_specification[ char::from_u32 ](code: u32) -> (ch: Option<char>)
    ensures
        ch == (if is_scalar_value(code as int) {
            Some(code as char)
        } else {
            None
        }),
;

} // verus!
