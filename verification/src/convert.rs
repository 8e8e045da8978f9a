//! The executable conversions and predicates. Each one is a single pass over
//! the characters of the input, building a fresh `String`, and its contract
//! ties the result to the corresponding function of the model.

use vstd::prelude::*;
use vstd::string::StrSliceExecFns;

use crate::ascii::ascii_lowercase_char;
use crate::ascii::ascii_uppercase_char;
use crate::ascii::is_ascii_uppercase;
use crate::model::camel_of;
use crate::model::camel_rest;
use crate::model::capitalized_of;
use crate::model::dashed_of;
use crate::model::is_camel_lowercase_of;
use crate::model::is_capitalized_of;
use crate::model::snake_char;
use crate::model::snake_of;
use crate::unicode::char_is_uppercase;
use crate::unicode::char_to_uppercase;
use crate::unicode::unicode_uppercase;

verus! {

/// Relies on String::push: appends the given character to the end of the
/// string.
#[verifier::external_body]
fn push_char(s: &mut String, c: char)
    ensures
        final(s)@ == old(s)@.push(c),
{
    s.push(c)
}

/// Return a copy of `s` with every underscore replaced by a dash; all other
/// characters pass through unchanged.
pub fn to_dashed(s: &str) -> (r: String)
    ensures
        r@ == dashed_of(s@),
{
    let n = s.unicode_len();
    let mut result = String::new();
    let mut i: usize = 0;
    while i < n
        invariant
            n == s@.len(),
            i <= n,
            result@ =~= dashed_of(s@).take(i as int),
        decreases n - i,
    {
        let c = s.get_char(i);
        if c == '_' {
            push_char(&mut result, '-');
        } else {
            push_char(&mut result, c);
        }
        proof {
            assert(result@ =~= dashed_of(s@).take(i + 1));
        }
        i = i + 1;
    }
    proof {
        assert(dashed_of(s@).take(n as int) =~= dashed_of(s@));
    }
    result
}

/// Return a copy of `s` whose first character, if any, is replaced by its
/// Unicode uppercase mapping when that mapping is a single character (it is
/// a no-op for characters without an uppercase form); the rest is unchanged.
pub fn to_capitalized(s: &str) -> (r: String)
    ensures
        r@ == capitalized_of(s@),
{
    let n = s.unicode_len();
    let mut result = String::new();
    let mut i: usize = 0;
    while i < n
        invariant
            n == s@.len(),
            i <= n,
            result@ =~= capitalized_of(s@).take(i as int),
        decreases n - i,
    {
        let c = s.get_char(i);
        if i == 0 {
            let upper = char_to_uppercase(c);
            if upper.len() == 1 {
                push_char(&mut result, upper[0]);
            } else {
                push_char(&mut result, c);
            }
        } else {
            push_char(&mut result, c);
        }
        proof {
            assert(result@ =~= capitalized_of(s@).take(i + 1));
        }
        i = i + 1;
    }
    proof {
        assert(capitalized_of(s@).take(n as int) =~= capitalized_of(s@));
    }
    result
}

/// True iff `s` is non-empty and its first character is Unicode-uppercase.
pub fn is_capitalized(s: &str) -> (r: bool)
    ensures
        r == is_capitalized_of(s@),
{
    if s.is_empty() {
        false
    } else {
        char_is_uppercase(s.get_char(0))
    }
}

/// True iff the first character of `s`, if any, is not Unicode-uppercase and
/// `s` contains no underscore. The empty string qualifies.
pub fn is_camel_lowercase(s: &str) -> (r: bool)
    ensures
        r == is_camel_lowercase_of(s@),
{
    let n = s.unicode_len();
    if n > 0 && char_is_uppercase(s.get_char(0)) {
        return false;
    }
    let mut i: usize = 0;
    while i < n
        invariant
            n == s@.len(),
            i <= n,
            !(n > 0 && unicode_uppercase(s@[0])),
            forall|j: int| 0 <= j < i ==> s@[j] != '_',
        decreases n - i,
    {
        if s.get_char(i) == '_' {
            return false;
        }
        i = i + 1;
    }
    true
}

/// Convert ASCII camel case to underscore-delimited lowercase: every ASCII
/// uppercase letter after the first character gains a preceding underscore,
/// and every ASCII uppercase letter is lowercased; all other characters pass
/// through unchanged.
pub fn to_snake(s: &str) -> (r: String)
    ensures
        r@ == snake_of(s@),
{
    let n = s.unicode_len();
    let mut result = String::new();
    let mut i: usize = 0;
    while i < n
        invariant
            n == s@.len(),
            i <= n,
            result@ == snake_of(s@.take(i as int)),
        decreases n - i,
    {
        let c = s.get_char(i);
        if is_ascii_uppercase(c) {
            if i != 0 {
                push_char(&mut result, '_');
            }
            push_char(&mut result, ascii_lowercase_char(c));
        } else {
            push_char(&mut result, c);
        }
        proof {
            let t = s@.take(i + 1);
            assert(t.drop_last() =~= s@.take(i as int));
            assert(t.last() == s@[i as int]);
            assert(result@ =~= snake_of(s@.take(i as int)) + snake_char(s@[i as int], i == 0));
        }
        i = i + 1;
    }
    proof {
        assert(s@.take(n as int) =~= s@);
    }
    result
}

/// The camel-case scan shared by `to_camel` and `to_camel_lowercase`:
/// leading underscores are consumed outright, every later underscore marks a
/// word boundary and is dropped, the character after a boundary is
/// ASCII-uppercased, and the very first emitted character is uppercased only
/// when `uppercase_first_letter` holds.
pub fn to_camel_internal(term: &str, uppercase_first_letter: bool) -> (r: String)
    ensures
        r@ == camel_of(term@, uppercase_first_letter),
{
    let n = term.unicode_len();
    let mut result = String::new();
    let mut i: usize = 0;
    proof {
        assert(term@.skip(0) =~= term@);
    }
    while i < n && term.get_char(i) == '_'
        invariant
            n == term@.len(),
            i <= n,
            camel_of(term@, uppercase_first_letter) == camel_of(
                term@.skip(i as int),
                uppercase_first_letter,
            ),
        decreases n - i,
    {
        proof {
            assert(term@.skip(i as int)[0] == term@[i as int]);
            assert(term@.skip(i as int).skip(1) =~= term@.skip(i + 1));
        }
        i = i + 1;
    }
    let mut at_new_word = uppercase_first_letter;
    proof {
        if i == n {
            assert(term@.skip(n as int) =~= Seq::<char>::empty());
        } else {
            assert(term@.skip(i as int)[0] == term@[i as int]);
        }
    }
    while i < n
        invariant
            n == term@.len(),
            i <= n,
            camel_of(term@, uppercase_first_letter) == result@ + camel_rest(
                term@.skip(i as int),
                at_new_word,
            ),
        decreases n - i,
    {
        let c = term.get_char(i);
        proof {
            assert(term@.skip(i as int)[0] == term@[i as int]);
            assert(term@.skip(i as int).skip(1) =~= term@.skip(i + 1));
        }
        if c == '_' {
            at_new_word = true;
        } else if at_new_word {
            push_char(&mut result, ascii_uppercase_char(c));
            at_new_word = false;
            proof {
                assert(result@ + camel_rest(term@.skip(i + 1), false) =~= result@.drop_last()
                    + camel_rest(term@.skip(i as int), true));
            }
        } else {
            push_char(&mut result, c);
            proof {
                assert(result@ + camel_rest(term@.skip(i + 1), false) =~= result@.drop_last()
                    + camel_rest(term@.skip(i as int), false));
            }
        }
        i = i + 1;
    }
    proof {
        assert(term@.skip(n as int) =~= Seq::<char>::empty());
    }
    result
}

/// Convert an underscore-delimited string to capitalized camel case.
pub fn to_camel(s: &str) -> (r: String)
    ensures
        r@ == camel_of(s@, true),
{
    to_camel_internal(s, true)
}

/// Convert an underscore-delimited string to camel case whose first emitted
/// character keeps its own case.
pub fn to_camel_lowercase(s: &str) -> (r: String)
    ensures
        r@ == camel_of(s@, false),
{
    to_camel_internal(s, false)
}

} // verus!
