//! Code points: which values name a character, and how the font engine is
//! asked for one.

use vstd::prelude::*;
use crate::error::MeshError;

verus! {

/// Whether `value` is a Unicode scalar value: a code point up to U+10FFFF that
/// is not a surrogate.
pub open spec fn is_scalar_value(value: u32) -> bool {
    value < 0xD800 || (0xE000 <= value && value <= 0x10FFFF)
}

/// `char::from_u32` of the standard library: the character with the given
/// scalar value, and `None` exactly for the values that are not scalar values
/// (surrogates and everything above U+10FFFF).
pub assume_specification[ <char>::from_u32 ](i: u32) -> (decoded: Option<char>)
    ensures
        is_scalar_value(i) ==> decoded == Some(i as char),
        !is_scalar_value(i) ==> decoded is None,
;

/// Decodes a requested code point.
///
/// Surrogate halves and values above U+10FFFF are rejected; no character is
/// put in their place.
pub fn decode_scalar(codepoint: u32) -> (decoded: Result<char, MeshError>)
    ensures
        is_scalar_value(codepoint) ==> decoded == Ok::<char, MeshError>(codepoint as char),
        !is_scalar_value(codepoint) ==> decoded == Err::<char, MeshError>(
            MeshError::InvalidCodepoint,
        ),
{
    match char::from_u32(codepoint) {
        Some(c) => Ok(c),
        None => Err(MeshError::InvalidCodepoint),
    }
}

/// The UTF-16 code unit of a character of the Basic Multilingual Plane; `None`
/// for a character that UTF-16 writes as a surrogate pair.
pub open spec fn spec_utf16_unit(c: char) -> Option<u16> {
    if c as u32 <= 0xFFFF {
        Some(c as u16)
    } else {
        None
    }
}

/// The key under which the font engine finds a character's glyph.
///
/// The engine indexes glyphs by a single UTF-16 code unit. A character
/// outside the Basic Multilingual Plane has no such unit, so no font has a
/// glyph for it; one half of its surrogate pair is never used in its place.
pub fn utf16_unit(c: char) -> (unit: Option<u16>)
    ensures
        unit == spec_utf16_unit(c),
{
    let value: u32 = c as u32;
    if value <= 0xFFFF {
        Some(value as u16)
    } else {
        None
    }
}

/// The key of a character is the character's own value, and never a
/// surrogate.
pub proof fn lemma_utf16_unit_is_scalar(c: char)
    ensures
        spec_utf16_unit(c) matches Some(unit) ==> unit as u32 == c as u32 && is_scalar_value(
            unit as u32,
        ),
{
}

} // verus!
