use web_app::errors::{ErrorKind, Field, FieldError};
use web_app::messages::{code, field_name, message, rule_message, FormKind};
use web_app::rules::PasswordRule;

fn text(form: FormKind, field: Field, kind: ErrorKind) -> Option<String> {
    message(form, FieldError { field, kind })
}

#[test]
fn fields_are_listed_under_their_names() {
    assert_eq!(field_name(Field::FirstName), "first_name");
    assert_eq!(field_name(Field::LastName), "last_name");
    assert_eq!(field_name(Field::Email), "email");
    assert_eq!(field_name(Field::Password), "password");
    assert_eq!(field_name(Field::ConfirmPassword), "confirm_password");
    assert_eq!(field_name(Field::All), "__all__");
}

#[test]
fn each_error_has_its_code() {
    assert_eq!(code(ErrorKind::Required), "length");
    assert_eq!(code(ErrorKind::EmailFormat), "email");
    assert_eq!(code(ErrorKind::PasswordRule(PasswordRule::Uppercase)), "regex");
    assert_eq!(code(ErrorKind::PasswordRule(PasswordRule::Lowercase)), "regex");
    assert_eq!(code(ErrorKind::PasswordRule(PasswordRule::Digit)), "regex");
    assert_eq!(code(ErrorKind::PasswordRule(PasswordRule::Special)), "regex");
    assert_eq!(code(ErrorKind::PasswordRule(PasswordRule::NoWhitespace)), "regex");
    assert_eq!(code(ErrorKind::PasswordRule(PasswordRule::MinLength)), "length");
    assert_eq!(code(ErrorKind::PasswordMismatch), "must_match");
    assert_eq!(code(ErrorKind::EmailTaken), "email");
    assert_eq!(code(ErrorKind::InvalidCredentials), "invalid");
}

#[test]
fn errors_of_store_and_hasher_cannot_be_told_apart() {
    assert_eq!(code(ErrorKind::StoreUnavailable), "registration_error");
    assert_eq!(code(ErrorKind::Hashing), "registration_error");
    assert_eq!(
        text(FormKind::Registration, Field::All, ErrorKind::StoreUnavailable),
        Some(String::from("An error occured during registration"))
    );
    assert_eq!(
        text(FormKind::Registration, Field::All, ErrorKind::Hashing),
        text(FormKind::Registration, Field::All, ErrorKind::StoreUnavailable)
    );
}

#[test]
fn each_rule_has_its_sentence() {
    assert_eq!(
        rule_message(PasswordRule::Uppercase),
        "Password must contain at least one uppercase character"
    );
    assert_eq!(
        rule_message(PasswordRule::Lowercase),
        "Password must contain at least one lowercase character"
    );
    assert_eq!(rule_message(PasswordRule::Digit), "Password must contain at least one number");
    assert_eq!(
        rule_message(PasswordRule::Special),
        "Password must contain at least one special character"
    );
    assert_eq!(rule_message(PasswordRule::NoWhitespace), "Password must not contain spaces");
    assert_eq!(rule_message(PasswordRule::MinLength), "Password must be at least 8 characters");
    assert_eq!(
        text(FormKind::Registration, Field::Password, ErrorKind::PasswordRule(PasswordRule::Digit)),
        Some(String::from("Password must contain at least one number"))
    );
    assert_eq!(
        text(FormKind::Registration, Field::ConfirmPassword, ErrorKind::PasswordRule(PasswordRule::MinLength)),
        Some(String::from("Password must be at least 8 characters"))
    );
}

#[test]
fn an_empty_field_is_named_in_its_sentence() {
    let required = |form, field| text(form, field, ErrorKind::Required);
    assert_eq!(
        required(FormKind::Registration, Field::FirstName),
        Some(String::from("First name required"))
    );
    assert_eq!(
        required(FormKind::Registration, Field::LastName),
        Some(String::from("Last name required"))
    );
    assert_eq!(required(FormKind::Registration, Field::Email), Some(String::from("Email required")));
    assert_eq!(required(FormKind::Login, Field::Email), Some(String::from("Email required")));
    assert_eq!(
        required(FormKind::Registration, Field::Password),
        Some(String::from("Password required"))
    );
    assert_eq!(required(FormKind::Login, Field::Password), Some(String::from("Password Required")));
    assert_eq!(
        required(FormKind::Registration, Field::ConfirmPassword),
        Some(String::from("Password confirmation required"))
    );
    assert_eq!(required(FormKind::Registration, Field::All), None);
}

#[test]
fn the_other_sentences() {
    assert_eq!(text(FormKind::Login, Field::Email, ErrorKind::EmailFormat), None);
    assert_eq!(text(FormKind::Registration, Field::Email, ErrorKind::EmailTaken), None);
    assert_eq!(
        text(FormKind::Registration, Field::Password, ErrorKind::PasswordMismatch),
        Some(String::from("Passwords must match"))
    );
    assert_eq!(
        text(FormKind::Login, Field::All, ErrorKind::InvalidCredentials),
        Some(String::from("Invalid Credentials"))
    );
}
