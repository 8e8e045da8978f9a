use case::is_ascii_uppercase;
use case::is_camel_lowercase;
use case::is_capitalized;
use case::to_camel;
use case::to_camel_internal;
use case::to_camel_lowercase;
use case::to_capitalized;
use case::to_dashed;
use case::to_snake;

#[test]
fn capitalize_empty() {
    assert_eq!(to_capitalized(""), "");
}

#[test]
fn capitalize_sentence() {
    assert_eq!(to_capitalized("stringy string"), "Stringy string");
}

#[test]
fn capitalize_changes_only_first_char() {
    let s = "hello_World 123";
    let r = to_capitalized(s);
    assert_eq!(r.chars().count(), s.chars().count());
    assert_eq!(&r[1..], &s[1..]);
    assert_eq!(r, "Hello_World 123");
}

#[test]
fn capitalize_non_letter_first_char() {
    assert_eq!(to_capitalized("1abc"), "1abc");
}

#[test]
fn capitalize_ideographs_unchanged() {
    assert_eq!(to_capitalized("言語"), "言語");
}

#[test]
fn capitalize_uses_unicode_uppercase() {
    assert_eq!(to_capitalized("état"), "État");
    assert_eq!(to_capitalized("łódź"), "Łódź");
}

#[test]
fn capitalize_keeps_multi_char_mappings_out() {
    // The uppercase mapping of 'ß' is the two characters "SS", which cannot
    // replace one character in a length-preserving transform.
    assert_eq!(to_capitalized("ßeta"), "ßeta");
}

#[test]
fn is_capitalized_empty_is_false() {
    assert!(!is_capitalized(""));
}

#[test]
fn is_capitalized_examples() {
    assert!(is_capitalized("Stringy string"));
    assert!(!is_capitalized("hello world"));
}

#[test]
fn is_capitalized_sees_unicode_uppercase() {
    assert!(is_capitalized("Éclair"));
    assert!(!is_capitalized("état"));
    assert!(!is_capitalized("言語"));
}

#[test]
fn camel_words() {
    assert_eq!(to_camel("a_string_and_a_miss"), "AStringAndAMiss");
}

#[test]
fn camel_single_word() {
    assert_eq!(to_camel("fooby"), "Fooby");
}

#[test]
fn camel_wild_underscores() {
    assert_eq!(to_camel("_wild__underscore_s_"), "WildUnderscoreS");
}

#[test]
fn camel_empty() {
    assert_eq!(to_camel(""), "");
}

#[test]
fn camel_only_underscores() {
    assert_eq!(to_camel("___"), "");
}

#[test]
fn camel_ideographs() {
    assert_eq!(to_camel("言_語"), "言語");
    assert_eq!(to_camel_lowercase("言_語"), "言語");
}

#[test]
fn camel_lowercase_words() {
    assert_eq!(to_camel_lowercase("string_henry_iii"), "stringHenryIii");
}

#[test]
fn camel_lowercase_wild_underscores() {
    assert_eq!(to_camel_lowercase("_wild__underscore_s_"), "wildUnderscoreS");
}

#[test]
fn camel_lowercase_single_word() {
    assert_eq!(to_camel_lowercase("fooby"), "fooby");
}

#[test]
fn camel_internal_flag_decides_first_letter() {
    assert_eq!(to_camel_internal("foo_bar", true), "FooBar");
    assert_eq!(to_camel_internal("foo_bar", false), "fooBar");
}

#[test]
fn is_camel_lowercase_examples() {
    assert!(is_camel_lowercase("helloWorld"));
    assert!(!is_camel_lowercase("WildUnderscoreS"));
    assert!(is_camel_lowercase(""));
}

#[test]
fn is_camel_lowercase_rejects_underscores() {
    assert!(!is_camel_lowercase("hello_world"));
    assert!(!is_camel_lowercase("_"));
}

#[test]
fn snake_words() {
    assert_eq!(to_snake("martinLutherStringJr"), "martin_luther_string_jr");
}

#[test]
fn snake_capitalized_words() {
    assert_eq!(to_snake("WildUnderscoreS"), "wild_underscore_s");
}

#[test]
fn snake_single_word() {
    assert_eq!(to_snake("fooby"), "fooby");
}

#[test]
fn snake_empty() {
    assert_eq!(to_snake(""), "");
}

#[test]
fn snake_uppercase_run() {
    assert_eq!(to_snake("ABC"), "a_b_c");
}

#[test]
fn snake_ideographs_unchanged() {
    assert_eq!(to_snake("言語"), "言語");
}

#[test]
fn dashed_words() {
    assert_eq!(to_dashed("stringing_in_the_rain"), "stringing-in-the-rain");
}

#[test]
fn dashed_changes_only_underscores() {
    let s = "a_b-c d_";
    let r = to_dashed(s);
    assert_eq!(r.chars().count(), s.chars().count());
    assert_eq!(r, "a-b-c d-");
    assert_eq!(to_dashed(""), "");
    assert_eq!(to_dashed("no dashes here"), "no dashes here");
}

#[test]
fn ascii_uppercase_predicate() {
    assert!(is_ascii_uppercase('A'));
    assert!(is_ascii_uppercase('Z'));
    assert!(!is_ascii_uppercase('a'));
    assert!(!is_ascii_uppercase('_'));
    assert!(!is_ascii_uppercase('言'));
}

#[test]
fn camel_snake_round_trip_is_lossy() {
    let s = "_wild__underscore_s_";
    let round = to_snake(&to_camel(s));
    assert_eq!(round, "wild_underscore_s");
    assert_ne!(round, s);
}

#[test]
fn camel_snake_round_trip_on_plain_snake() {
    let s = "foo_bar_baz";
    assert_eq!(to_snake(&to_camel_lowercase(s)), s);
}
