//! What this library takes on trust of the standard library: the contracts
//! of the two functions below are believed, not proved.

use vstd::prelude::*;

verus! {

/// Whether a number is a Unicode scalar value, that is, a `char`.
pub open spec fn is_scalar_value(scalar: u32) -> bool {
    scalar <= 0x10FFFF && !(0xD800 <= scalar <= 0xDFFF)
}

/// `char::from_u32` of the standard library, which is taken on trust: it
/// gives the character with the given number where that number is a Unicode
/// scalar value, and nothing for a surrogate or a number above U+10FFFF.
pub assume_specification[ char::from_u32 ](scalar: u32) -> (c: Option<char>)
    ensures
        is_scalar_value(scalar) ==> c == Some(scalar as char),
        !is_scalar_value(scalar) ==> c.is_none(),
;

/// `String::push` of the standard library, which is taken on trust: it
/// appends the character to the end of the string.
pub assume_specification[ String::push ](text: &mut String, c: char)
    ensures
        final(text)@ == old(text)@.push(c),
;

} // verus!
