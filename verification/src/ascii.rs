//! ASCII letter classification and case mapping.
//!
//! Word-boundary detection in the delimiter/camel conversions is governed by
//! the ASCII uppercase range U+0041..=U+005A alone, never by general Unicode
//! case; these definitions are the single place where that range is written
//! down.

use vstd::prelude::*;

verus! {

/// An ASCII uppercase letter: a scalar value in U+0041..=U+005A.
pub open spec fn is_ascii_upper(c: char) -> bool {
    'A' <= c && c <= 'Z'
}

/// An ASCII lowercase letter: a scalar value in U+0061..=U+007A.
pub open spec fn is_ascii_lower(c: char) -> bool {
    'a' <= c && c <= 'z'
}

/// The ASCII uppercase counterpart of a character: ASCII lowercase letters
/// map to the matching uppercase letter, every other character to itself.
pub open spec fn to_ascii_upper(c: char) -> char {
    if is_ascii_lower(c) {
        (c as int - 32) as char
    } else {
        c
    }
}

/// The ASCII lowercase counterpart of a character: ASCII uppercase letters
/// map to the matching lowercase letter, every other character to itself.
pub open spec fn to_ascii_lower(c: char) -> char {
    if is_ascii_upper(c) {
        (c as int + 32) as char
    } else {
        c
    }
}

/// Decide whether `c` is an ASCII uppercase letter.
pub fn is_ascii_uppercase(c: char) -> (r: bool)
    ensures
        r == is_ascii_upper(c),
{
    c >= 'A' && c <= 'Z'
}

/// Map an ASCII lowercase letter to its uppercase counterpart; leave every
/// other character unchanged.
pub fn ascii_uppercase_char(c: char) -> (r: char)
    ensures
        r == to_ascii_upper(c),
{
    if c >= 'a' && c <= 'z' {
        char_from_code(c as u32 - 32)
    } else {
        c
    }
}

/// Map an ASCII uppercase letter to its lowercase counterpart; leave every
/// other character unchanged.
pub fn ascii_lowercase_char(c: char) -> (r: char)
    ensures
        r == to_ascii_lower(c),
{
    if c >= 'A' && c <= 'Z' {
        char_from_code(c as u32 + 32)
    } else {
        c
    }
}

/// Relies on char::from_u32: for a code point outside the surrogate range
/// U+D800..=U+DFFF and at most U+10FFFF it returns the character with that
/// scalar value.
#[verifier::external_body]
fn char_from_code(code: u32) -> (r: char)
    requires
        code < 0xD800 || (0xE000 <= code && code <= 0x10FFFF),
    ensures
        r == code as char,
{
    char::from_u32(code).unwrap()
}

} // verus!
