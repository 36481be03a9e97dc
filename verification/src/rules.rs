//! The composition rules that a new password must meet.
//!
//! An uppercase letter is one of `A` to `Z`, a lowercase letter one of `a` to
//! `z`. Whitespace is every character with the Unicode `White_Space` property.
//! What a digit is, and what a special character, is for the `regex` crate to
//! say, over all of Unicode: a digit is a decimal digit of any script, and a
//! special character is one that is neither alphabetic nor a decimal digit.
//! So a letter of any script is not special, and the underscore is. Lengths
//! count characters, not bytes.

use regex::Regex;
use vstd::prelude::*;
use vstd::string::StrSliceExecFns;

verus! {

/// The least number of characters in a new password.
pub const MIN_PASSWORD_LENGTH: usize = 8;

/// The pattern that finds a decimal digit.
pub const DIGIT_PATTERN: &'static str = "\\d+";

/// The pattern that finds a special character: one that has not the Unicode
/// property `Alphabetic` and is no decimal digit.
pub const SPECIAL_PATTERN: &'static str = "[^\\p{Alphabetic}\\p{Nd}]+";

/// Whether the `regex` crate finds a match of a pattern in a text, or `None`
/// where it does not take the pattern.
pub uninterp spec fn regex_match(pattern: Seq<char>, text: Seq<char>) -> Option<bool>;

/// The classes of characters that are told apart here.
#[derive(Clone, Copy, Debug, PartialEq, Eq, Structural)]
pub enum CharClass {
    /// `A` to `Z`.
    Upper,
    /// `a` to `z`.
    Lower,
    /// A character with the Unicode `White_Space` property.
    Whitespace,
}

/// What the patterns find in a password.
#[derive(Clone, Copy, Debug, PartialEq, Eq, Structural)]
pub struct Composition {
    /// Whether it holds a digit.
    pub digit: bool,
    /// Whether it holds a special character.
    pub special: bool,
}

pub open spec fn is_upper(c: char) -> bool {
    'A' <= c <= 'Z'
}

pub open spec fn is_lower(c: char) -> bool {
    'a' <= c <= 'z'
}

pub open spec fn is_whitespace(c: char) -> bool {
    ||| '\u{9}' <= c <= '\u{d}'
    ||| c == ' '
    ||| c == '\u{85}'
    ||| c == '\u{a0}'
    ||| c == '\u{1680}'
    ||| '\u{2000}' <= c <= '\u{200a}'
    ||| c == '\u{2028}'
    ||| c == '\u{2029}'
    ||| c == '\u{202f}'
    ||| c == '\u{205f}'
    ||| c == '\u{3000}'
}

/// Whether `c` belongs to `class`.
pub open spec fn in_class(class: CharClass, c: char) -> bool {
    match class {
        CharClass::Upper => is_upper(c),
        CharClass::Lower => is_lower(c),
        CharClass::Whitespace => is_whitespace(c),
    }
}

/// Whether some character of `s` belongs to `class`.
pub open spec fn has_class(s: Seq<char>, class: CharClass) -> bool {
    exists|i: int| 0 <= i < s.len() && in_class(class, #[trigger] s[i])
}

/// One composition rule.
#[derive(Clone, Copy, Debug, PartialEq, Eq, Structural)]
pub enum PasswordRule {
    /// At least one uppercase letter.
    Uppercase,
    /// At least one lowercase letter.
    Lowercase,
    /// At least one decimal digit.
    Digit,
    /// At least one special character.
    Special,
    /// No whitespace anywhere.
    NoWhitespace,
    /// At least `MIN_PASSWORD_LENGTH` characters.
    MinLength,
}

/// What a search for a pattern comes to: found only where the pattern was
/// taken and matched.
pub open spec fn is_found(searched: Option<bool>) -> bool {
    searched == Some(true)
}

/// What the patterns find in the password `s`.
pub open spec fn composition_of(s: Seq<char>) -> Composition {
    Composition {
        digit: is_found(regex_match(DIGIT_PATTERN@, s)),
        special: is_found(regex_match(SPECIAL_PATTERN@, s)),
    }
}

/// Whether the password `s` meets `rule`, given what the patterns find in it.
pub open spec fn rule_holds_given(rule: PasswordRule, s: Seq<char>, found: Composition) -> bool {
    match rule {
        PasswordRule::Uppercase => has_class(s, CharClass::Upper),
        PasswordRule::Lowercase => has_class(s, CharClass::Lower),
        PasswordRule::Digit => found.digit,
        PasswordRule::Special => found.special,
        PasswordRule::NoWhitespace => !has_class(s, CharClass::Whitespace),
        PasswordRule::MinLength => s.len() >= MIN_PASSWORD_LENGTH,
    }
}

/// Whether the password `s` meets `rule`.
pub open spec fn rule_holds(rule: PasswordRule, s: Seq<char>) -> bool {
    rule_holds_given(rule, s, composition_of(s))
}

/// Whether the password `s` meets every composition rule, given what the
/// patterns find in it.
pub open spec fn well_composed(s: Seq<char>, found: Composition) -> bool {
    forall|rule: PasswordRule| rule_holds_given(rule, s, found)
}

/// Calls `Regex::new` of `regex` on the pattern and `Regex::is_match` on the
/// text. `None` stands for a pattern that `Regex::new` refuses. The claim is
/// only that the answer depends on pattern and text alone.
#[verifier::external_body]
fn search(pattern: &str, text: &str) -> (searched: Option<bool>)
    ensures
        searched == regex_match(pattern@, text@),
{
    Some(Regex::new(pattern).ok()?.is_match(text))
}

/// Tests one character against one class.
pub fn char_in_class(class: CharClass, c: char) -> (r: bool)
    ensures
        r == in_class(class, c),
{
    match class {
        CharClass::Upper => 'A' <= c && c <= 'Z',
        CharClass::Lower => 'a' <= c && c <= 'z',
        CharClass::Whitespace => ('\u{9}' <= c && c <= '\u{d}') || c == ' ' || c == '\u{85}' || c
            == '\u{a0}' || c == '\u{1680}' || ('\u{2000}' <= c && c <= '\u{200a}') || c
            == '\u{2028}' || c == '\u{2029}' || c == '\u{202f}' || c == '\u{205f}' || c
            == '\u{3000}',
    }
}

/// Looks through `s` for a character of `class`.
pub fn contains_class(s: &str, class: CharClass) -> (found: bool)
    ensures
        found == has_class(s@, class),
{
    let mut found = false;
    for c in it: s.chars()
        invariant
            it.seq() == s@,
            found == has_class(s@.take(it.index()), class),
    {
        let ghost k = it.index();
        if char_in_class(class, c) {
            assert(s@.take(k + 1)[k] == c);
            found = true;
        } else if found {
            let ghost j = choose|j: int| 0 <= j < k && in_class(class, #[trigger] s@.take(k)[j]);
            assert(s@.take(k + 1)[j] == s@.take(k)[j]);
        } else {
            assert forall|j: int| 0 <= j < k + 1 implies !in_class(
                class,
                #[trigger] s@.take(k + 1)[j],
            ) by {
                if j < k {
                    assert(s@.take(k)[j] == s@.take(k + 1)[j]);
                }
            }
        }
    }
    assert(s@.take(s@.len() as int) == s@);
    found
}

/// Reads the outcome of a search: found only where the pattern was taken and
/// matched.
pub fn found(searched: Option<bool>) -> (yes: bool)
    ensures
        yes == is_found(searched),
{
    match searched {
        Some(matched) => matched,
        None => false,
    }
}

/// Searches the password `s` for a digit and for a special character.
pub fn find_composition(s: &str) -> (composition: Composition)
    ensures
        composition == composition_of(s@),
{
    Composition {
        digit: found(search(DIGIT_PATTERN, s)),
        special: found(search(SPECIAL_PATTERN, s)),
    }
}

/// Tests the password `s` against one rule, given what the patterns find in
/// it.
pub fn check_rule_given(rule: PasswordRule, s: &str, found: Composition) -> (ok: bool)
    ensures
        ok == rule_holds_given(rule, s@, found),
{
    match rule {
        PasswordRule::Uppercase => contains_class(s, CharClass::Upper),
        PasswordRule::Lowercase => contains_class(s, CharClass::Lower),
        PasswordRule::Digit => found.digit,
        PasswordRule::Special => found.special,
        PasswordRule::NoWhitespace => !contains_class(s, CharClass::Whitespace),
        PasswordRule::MinLength => s.unicode_len() >= MIN_PASSWORD_LENGTH,
    }
}

/// Tests the password `s` against one rule. The patterns are searched for
/// only where the rule asks.
pub fn check_rule(rule: PasswordRule, s: &str) -> (ok: bool)
    ensures
        ok == rule_holds(rule, s@),
{
    match rule {
        PasswordRule::Digit => found(search(DIGIT_PATTERN, s)),
        PasswordRule::Special => found(search(SPECIAL_PATTERN, s)),
        _ => check_rule_given(rule, s, Composition { digit: false, special: false }),
    }
}

} // verus!
