use web_app::rules::{
    char_in_class, check_rule, check_rule_given, contains_class, find_composition, found,
    CharClass, Composition, PasswordRule, DIGIT_PATTERN, MIN_PASSWORD_LENGTH, SPECIAL_PATTERN,
};

const NOTHING: Composition = Composition { digit: false, special: false };

#[test]
fn classes_of_ascii_characters() {
    assert!(char_in_class(CharClass::Upper, 'A'));
    assert!(char_in_class(CharClass::Upper, 'Z'));
    assert!(!char_in_class(CharClass::Upper, 'a'));
    assert!(!char_in_class(CharClass::Upper, '@'));
    assert!(!char_in_class(CharClass::Upper, '['));
    assert!(char_in_class(CharClass::Lower, 'a'));
    assert!(char_in_class(CharClass::Lower, 'z'));
    assert!(!char_in_class(CharClass::Lower, '`'));
    assert!(!char_in_class(CharClass::Lower, '{'));
}

#[test]
fn uppercase_and_lowercase_letters_are_the_ascii_ones() {
    assert!(!char_in_class(CharClass::Upper, 'É'));
    assert!(!char_in_class(CharClass::Lower, 'é'));
    assert!(!check_rule(PasswordRule::Uppercase, "émile"));
    assert!(!check_rule(PasswordRule::Lowercase, "ÉMILE"));
}

#[test]
fn whitespace_is_unicode_white_space() {
    for c in ['\t', '\n', '\u{b}', '\u{c}', '\r', ' ', '\u{85}', '\u{a0}', '\u{1680}', '\u{2000}',
        '\u{2005}', '\u{200a}', '\u{2028}', '\u{2029}', '\u{202f}', '\u{205f}', '\u{3000}']
    {
        assert!(char_in_class(CharClass::Whitespace, c), "{:?}", c);
        assert!(c.is_whitespace());
    }
    for c in ['a', '_', '\u{8}', '\u{e}', '\u{1f}', '\u{200b}', '\u{2060}', '\u{feff}', '\u{180e}'] {
        assert!(!char_in_class(CharClass::Whitespace, c), "{:?}", c);
        assert!(!c.is_whitespace());
    }
}

#[test]
fn the_classes_agree_with_std_on_every_character() {
    let mut code = 0u32;
    while code <= 0x10ffff {
        if let Some(c) = char::from_u32(code) {
            assert_eq!(char_in_class(CharClass::Whitespace, c), c.is_whitespace(), "{:x}", code);
            assert_eq!(char_in_class(CharClass::Upper, c), c.is_ascii_uppercase());
            assert_eq!(char_in_class(CharClass::Lower, c), c.is_ascii_lowercase());
        }
        code += 1;
    }
}

#[test]
fn a_class_is_found_wherever_it_stands() {
    assert!(contains_class("Password1!", CharClass::Upper));
    assert!(contains_class("passworD", CharClass::Upper));
    assert!(contains_class("passWord", CharClass::Upper));
    assert!(!contains_class("password1!", CharClass::Upper));
    assert!(!contains_class("", CharClass::Upper));
    assert!(!contains_class("", CharClass::Whitespace));
    assert!(contains_class("pass word", CharClass::Whitespace));
    assert!(contains_class("password\t", CharClass::Whitespace));
}

#[test]
fn the_two_patterns() {
    assert_eq!(DIGIT_PATTERN, r"\d+");
    assert_eq!(SPECIAL_PATTERN, r"[^\p{Alphabetic}\p{Nd}]+");
}

#[test]
fn what_the_patterns_find() {
    assert_eq!(find_composition("Password1!"), Composition { digit: true, special: true });
    assert_eq!(find_composition("Password1"), Composition { digit: true, special: false });
    assert_eq!(find_composition("Password!"), Composition { digit: false, special: true });
    assert_eq!(find_composition("Password"), NOTHING);
    assert_eq!(find_composition(""), NOTHING);
}

#[test]
fn a_letter_of_any_script_is_not_special() {
    for password in ["Password\u{e9}1", "Пароль1", "密码1", "Passwordé", "ÉÀÜß", "كلمة"] {
        assert!(!check_rule(PasswordRule::Special, password), "{:?}", password);
    }
    assert!(!find_composition("Password\u{e9}1").special);
    assert!(check_rule(PasswordRule::Special, "Password\u{e9}1!"));
}

#[test]
fn the_underscore_is_special() {
    assert!(check_rule(PasswordRule::Special, "Password1_"));
    assert!(check_rule(PasswordRule::Special, "_"));
    assert!(check_rule(PasswordRule::Special, "under\u{203f}tie"));
}

#[test]
fn punctuation_symbols_and_blanks_are_special() {
    for password in ["a!", "a-b", "a b", "a\tb", "100%", "a€", "a½", "a😀", "a²", "e\u{301}", "a\u{200d}b"] {
        assert!(check_rule(PasswordRule::Special, password), "{:?}", password);
    }
}

#[test]
fn a_decimal_digit_of_any_script_is_not_special() {
    for password in ["a1", "a٣", "a९", "a９", "0123456789"] {
        assert!(!check_rule(PasswordRule::Special, password), "{:?}", password);
    }
}

#[test]
fn on_ascii_special_is_what_is_neither_letter_nor_digit() {
    for code in 0u8..128 {
        let c = char::from(code);
        let text = c.to_string();
        assert_eq!(check_rule(PasswordRule::Special, &text), !c.is_ascii_alphanumeric(), "{:?}", c);
        assert_eq!(check_rule(PasswordRule::Digit, &text), c.is_ascii_digit(), "{:?}", c);
    }
}

#[test]
fn a_decimal_digit_of_any_script_is_a_digit() {
    for password in ["Password1!", "0", "a9", "a٣", "a९", "a９"] {
        assert!(check_rule(PasswordRule::Digit, password), "{:?}", password);
    }
    for password in ["Password!", "", "a½", "a²", "aⅧ", "one", "a/:"] {
        assert!(!check_rule(PasswordRule::Digit, password), "{:?}", password);
    }
}

#[test]
fn a_search_finds_only_what_it_matched() {
    assert!(found(Some(true)));
    assert!(!found(Some(false)));
    assert!(!found(None));
}

#[test]
fn the_findings_decide_digit_and_special() {
    let both = Composition { digit: true, special: true };
    assert!(check_rule_given(PasswordRule::Digit, "no digit here", both));
    assert!(check_rule_given(PasswordRule::Special, "nospecialhere", both));
    assert!(!check_rule_given(PasswordRule::Digit, "Password1!", NOTHING));
    assert!(!check_rule_given(PasswordRule::Special, "Password1!", NOTHING));
    assert!(check_rule_given(PasswordRule::Uppercase, "Password1!", NOTHING));
    assert!(!check_rule_given(PasswordRule::Uppercase, "password1!", both));
    assert!(check_rule_given(PasswordRule::MinLength, "Password1!", NOTHING));
    assert!(!check_rule_given(PasswordRule::NoWhitespace, "Pass word1!", both));
}

#[test]
fn each_rule_alone() {
    assert!(check_rule(PasswordRule::Uppercase, "A"));
    assert!(!check_rule(PasswordRule::Uppercase, "password1!"));
    assert!(check_rule(PasswordRule::Lowercase, "PASSWORd"));
    assert!(!check_rule(PasswordRule::Lowercase, "PASSWORD1!"));
    assert!(check_rule(PasswordRule::Digit, "Password1!"));
    assert!(!check_rule(PasswordRule::Digit, "Password!"));
    assert!(check_rule(PasswordRule::Special, "Password1!"));
    assert!(!check_rule(PasswordRule::Special, "Password1"));
    assert!(check_rule(PasswordRule::NoWhitespace, "Password1!"));
    assert!(!check_rule(PasswordRule::NoWhitespace, "Pass word1!"));
    assert!(!check_rule(PasswordRule::NoWhitespace, "Password1!\n"));
    assert!(check_rule(PasswordRule::NoWhitespace, ""));
}

#[test]
fn the_least_length_is_eight_characters() {
    assert_eq!(MIN_PASSWORD_LENGTH, 8);
    assert!(!check_rule(PasswordRule::MinLength, ""));
    assert!(!check_rule(PasswordRule::MinLength, "Passw1!"));
    assert!(check_rule(PasswordRule::MinLength, "Passwo1!"));
    assert!(check_rule(PasswordRule::MinLength, "Password1!"));
}

#[test]
fn length_counts_characters_not_bytes() {
    assert_eq!("ééééééé".len(), 14);
    assert!(!check_rule(PasswordRule::MinLength, "ééééééé"));
    assert!(check_rule(PasswordRule::MinLength, "éééééééé"));
}
