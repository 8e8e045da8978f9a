//! General Unicode uppercase classification.
//!
//! The two `is_*` predicates of this library classify a string's first
//! character by the Unicode `Uppercase` property, not by the ASCII range.
//! That property is a fixed function of the character alone, far too large
//! to write out here, so it is carried as an uninterpreted name.

use vstd::prelude::*;

verus! {

/// Whether a character has the Unicode `Uppercase` property. The property is
/// a pure function of the character; its value is given only through
/// `char_is_uppercase`.
pub uninterp spec fn unicode_uppercase(c: char) -> bool;

/// Relies on char::is_uppercase: true exactly when the character has the
/// Unicode `Uppercase` property, a function of the character alone.
#[verifier::external_body]
pub(crate) fn char_is_uppercase(c: char) -> (r: bool)
    ensures
        r == unicode_uppercase(c),
{
    c.is_uppercase()
}

/// The Unicode uppercase mapping of a character: the one or more characters
/// it uppercases to, a pure function of the character, far too large to
/// write out here. Its value is given only through `char_to_uppercase`.
pub uninterp spec fn unicode_upper_of(c: char) -> Seq<char>;

/// Relies on char::to_uppercase: yields the Unicode uppercase mapping of the
/// character as one or more characters, a function of the character alone.
#[verifier::external_body]
pub(crate) fn char_to_uppercase(c: char) -> (r: Vec<char>)
    ensures
        r@ == unicode_upper_of(c),
        r@.len() >= 1,
{
    c.to_uppercase().collect()
}

} // verus!
