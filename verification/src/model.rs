//! The mathematical model: what each conversion returns, stated over
//! `Seq<char>`, the view of `&str` and `String`.
//!
//! The two delimiter/camel conversions are a linear scan with a single
//! "at a word boundary" flag; `camel_rest` is that state machine written as
//! a recursive function, and `camel_of` adds the initial skipping of leading
//! underscores.

use vstd::prelude::*;

use crate::ascii::is_ascii_lower;
use crate::ascii::is_ascii_upper;
use crate::ascii::to_ascii_lower;
use crate::ascii::to_ascii_upper;
use crate::unicode::unicode_upper_of;
use crate::unicode::unicode_uppercase;

verus! {

/// One character of the dashed conversion: an underscore becomes a dash,
/// everything else is unchanged.
pub open spec fn dashed_char(c: char) -> char {
    if c == '_' {
        '-'
    } else {
        c
    }
}

/// The dashed conversion: a pointwise map of `dashed_char`.
pub open spec fn dashed_of(s: Seq<char>) -> Seq<char> {
    Seq::new(s.len(), |i: int| dashed_char(s[i]))
}

/// What capitalization makes of a character standing first: its Unicode
/// uppercase mapping when that mapping is a single character, the character
/// itself otherwise (a multi-character mapping cannot replace one character
/// in a length-preserving transform; characters without an uppercase form
/// map to themselves anyway).
pub open spec fn capitalized_char(c: char) -> char {
    if unicode_upper_of(c).len() == 1 {
        unicode_upper_of(c)[0]
    } else {
        c
    }
}

/// The capitalized conversion: the first character, if any, is replaced by
/// its Unicode uppercase mapping; the rest is unchanged.
pub open spec fn capitalized_of(s: Seq<char>) -> Seq<char> {
    Seq::new(s.len(), |i: int| if i == 0 { capitalized_char(s[i]) } else { s[i] })
}

/// Whether a string counts as capitalized: non-empty, with a first character
/// that has the Unicode `Uppercase` property.
pub open spec fn is_capitalized_of(s: Seq<char>) -> bool {
    s.len() > 0 && unicode_uppercase(s[0])
}

/// Whether a string counts as lowercase camel case: its first character, if
/// any, is not Unicode-uppercase, and it contains no underscore. The empty
/// string qualifies vacuously.
pub open spec fn is_camel_lowercase_of(s: Seq<char>) -> bool {
    &&& !(s.len() > 0 && unicode_uppercase(s[0]))
    &&& forall|i: int| 0 <= i < s.len() ==> s[i] != '_'
}

/// What one character of the snake conversion emits: an ASCII uppercase
/// letter is lowercased and, unless it is the very first character, preceded
/// by an underscore; every other character passes through.
pub open spec fn snake_char(c: char, first: bool) -> Seq<char> {
    if is_ascii_upper(c) {
        if first {
            seq![to_ascii_lower(c)]
        } else {
            seq!['_', to_ascii_lower(c)]
        }
    } else {
        seq![c]
    }
}

/// The snake conversion: the concatenation of what each character emits.
pub open spec fn snake_of(s: Seq<char>) -> Seq<char>
    decreases s.len(),
{
    if s.len() == 0 {
        Seq::empty()
    } else {
        snake_of(s.drop_last()) + snake_char(s.last(), s.len() == 1)
    }
}

/// The camel-case scan after leading underscores are gone. An underscore is
/// consumed and sets the boundary flag; at a boundary the character is
/// emitted ASCII-uppercased and the flag cleared; otherwise the character
/// passes through.
pub open spec fn camel_rest(s: Seq<char>, at_new_word: bool) -> Seq<char>
    decreases s.len(),
{
    if s.len() == 0 {
        Seq::empty()
    } else if s[0] == '_' {
        camel_rest(s.skip(1), true)
    } else if at_new_word {
        seq![to_ascii_upper(s[0])] + camel_rest(s.skip(1), false)
    } else {
        seq![s[0]] + camel_rest(s.skip(1), false)
    }
}

/// The camel conversion: leading underscores are skipped entirely, then the
/// scan runs with the boundary flag initially set exactly for the
/// capitalizing variant.
pub open spec fn camel_of(s: Seq<char>, uppercase_first_letter: bool) -> Seq<char>
    decreases s.len(),
{
    if s.len() == 0 {
        Seq::empty()
    } else if s[0] == '_' {
        camel_of(s.skip(1), uppercase_first_letter)
    } else {
        camel_rest(s, uppercase_first_letter)
    }
}

/// Law: the dashed conversion preserves the length and changes exactly the
/// underscore characters, each into a dash.
pub proof fn lemma_to_dashed_pointwise(s: Seq<char>)
    ensures
        dashed_of(s).len() == s.len(),
        forall|i: int| 0 <= i < s.len() && s[i] == '_' ==> dashed_of(s)[i] == '-',
        forall|i: int| 0 <= i < s.len() && s[i] != '_' ==> dashed_of(s)[i] == s[i],
{
}

/// Law: capitalizing the empty string gives the empty string, and
/// capitalizing any string preserves its length and can differ from it only
/// in the first character.
pub proof fn lemma_to_capitalized_frame(s: Seq<char>)
    ensures
        capitalized_of(Seq::<char>::empty()) == Seq::<char>::empty(),
        capitalized_of(s).len() == s.len(),
        forall|i: int| 1 <= i < s.len() ==> capitalized_of(s)[i] == s[i],
{
    assert(capitalized_of(Seq::<char>::empty()) =~= Seq::<char>::empty());
}

/// Law: a string without ASCII uppercase letters — non-ASCII text in
/// particular — passes through the snake conversion unchanged.
pub proof fn lemma_to_snake_passthrough(s: Seq<char>)
    requires
        forall|i: int| 0 <= i < s.len() ==> !is_ascii_upper(s[i]),
    ensures
        snake_of(s) == s,
    decreases s.len(),
{
    if s.len() == 0 {
        assert(snake_of(s) =~= s);
    } else {
        assert(forall|i: int|
            0 <= i < s.drop_last().len() ==> !is_ascii_upper(#[trigger] s.drop_last()[i]));
        lemma_to_snake_passthrough(s.drop_last());
        assert(!is_ascii_upper(s.last()));
        assert(snake_of(s) =~= s.drop_last() + seq![s.last()]);
        assert(s.drop_last() + seq![s.last()] =~= s);
    }
}

/// The camel scan leaves a string without underscores unchanged once it is
/// inside a word.
proof fn lemma_camel_rest_in_word(s: Seq<char>)
    requires
        forall|i: int| 0 <= i < s.len() ==> s[i] != '_',
    ensures
        camel_rest(s, false) == s,
    decreases s.len(),
{
    if s.len() == 0 {
        assert(camel_rest(s, false) =~= s);
    } else {
        assert(forall|i: int| 0 <= i < s.skip(1).len() ==> #[trigger] s.skip(1)[i] != '_');
        lemma_camel_rest_in_word(s.skip(1));
        assert(camel_rest(s, false) =~= seq![s[0]] + s.skip(1));
        assert(seq![s[0]] + s.skip(1) =~= s);
    }
}

/// Law: on a string without underscores — non-ASCII text in particular — the
/// camel conversions touch at most the first character: the plain variant
/// returns the string unchanged, the capitalizing variant ASCII-uppercases
/// the first character alone, and even that is the string itself when the
/// first character is not an ASCII lowercase letter.
pub proof fn lemma_to_camel_passthrough(s: Seq<char>)
    requires
        forall|i: int| 0 <= i < s.len() ==> s[i] != '_',
    ensures
        camel_of(s, false) == s,
        s.len() == 0 ==> camel_of(s, true) == s,
        s.len() > 0 ==> camel_of(s, true) == seq![to_ascii_upper(s[0])] + s.skip(1),
        s.len() > 0 && !is_ascii_lower(s[0]) ==> camel_of(s, true) == s,
{
    if s.len() == 0 {
        assert(camel_of(s, false) =~= s);
    } else {
        assert(forall|i: int| 0 <= i < s.skip(1).len() ==> #[trigger] s.skip(1)[i] != '_');
        lemma_camel_rest_in_word(s.skip(1));
        assert(s[0] != '_');
        assert(camel_of(s, false) == camel_rest(s, false));
        assert(camel_rest(s, false) =~= seq![s[0]] + s.skip(1));
        assert(seq![s[0]] + s.skip(1) =~= s);
        assert(camel_of(s, true) == camel_rest(s, true));
        assert(camel_rest(s, true) =~= seq![to_ascii_upper(s[0])] + s.skip(1));
        if !is_ascii_lower(s[0]) {
            assert(to_ascii_upper(s[0]) == s[0]);
        }
    }
}

} // verus!
