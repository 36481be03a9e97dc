//! How an error is shown to the caller: the name of its field, a short code,
//! and a sentence for the reader. Errors of the store and of the hasher share
//! one code and one sentence, so that a caller cannot tell them apart.

use crate::errors::{ErrorKind, Field, FieldError};
use crate::rules::PasswordRule;
use vstd::prelude::*;
use vstd::string::StringExecFns;

verus! {

/// The form that a submission came from.
#[derive(Clone, Copy, Debug, PartialEq, Eq, Structural)]
pub enum FormKind {
    Login,
    Registration,
}

/// The name under which the errors of a field are listed.
pub open spec fn field_name_text(field: Field) -> Seq<char> {
    match field {
        Field::FirstName => "first_name"@,
        Field::LastName => "last_name"@,
        Field::Email => "email"@,
        Field::Password => "password"@,
        Field::ConfirmPassword => "confirm_password"@,
        Field::All => "__all__"@,
    }
}

/// The code of an error.
pub open spec fn code_text(kind: ErrorKind) -> Seq<char> {
    match kind {
        ErrorKind::Required => "length"@,
        ErrorKind::EmailFormat => "email"@,
        ErrorKind::PasswordRule(PasswordRule::MinLength) => "length"@,
        ErrorKind::PasswordRule(_) => "regex"@,
        ErrorKind::PasswordMismatch => "must_match"@,
        ErrorKind::EmailTaken => "email"@,
        ErrorKind::InvalidCredentials => "invalid"@,
        ErrorKind::StoreUnavailable => "registration_error"@,
        ErrorKind::Hashing => "registration_error"@,
    }
}

/// The sentence for a failed rule.
pub open spec fn rule_message_text(rule: PasswordRule) -> Seq<char> {
    match rule {
        PasswordRule::Uppercase => "Password must contain at least one uppercase character"@,
        PasswordRule::Lowercase => "Password must contain at least one lowercase character"@,
        PasswordRule::Digit => "Password must contain at least one number"@,
        PasswordRule::Special => "Password must contain at least one special character"@,
        PasswordRule::NoWhitespace => "Password must not contain spaces"@,
        PasswordRule::MinLength => "Password must be at least 8 characters"@,
    }
}

/// The sentence for an empty field, where the field has one.
pub open spec fn required_message_text(form: FormKind, field: Field) -> Option<Seq<char>> {
    match field {
        Field::FirstName => Some("First name required"@),
        Field::LastName => Some("Last name required"@),
        Field::Email => Some("Email required"@),
        Field::Password => match form {
            FormKind::Login => Some("Password Required"@),
            FormKind::Registration => Some("Password required"@),
        },
        Field::ConfirmPassword => Some("Password confirmation required"@),
        Field::All => None,
    }
}

/// The sentence for an error, where it has one.
pub open spec fn message_text(form: FormKind, error: FieldError) -> Option<Seq<char>> {
    match error.kind {
        ErrorKind::Required => required_message_text(form, error.field),
        ErrorKind::EmailFormat => None,
        ErrorKind::PasswordRule(rule) => Some(rule_message_text(rule)),
        ErrorKind::PasswordMismatch => Some("Passwords must match"@),
        ErrorKind::EmailTaken => None,
        ErrorKind::InvalidCredentials => Some("Invalid Credentials"@),
        ErrorKind::StoreUnavailable => Some("An error occured during registration"@),
        ErrorKind::Hashing => Some("An error occured during registration"@),
    }
}

/// The text of a sentence, if there is one.
pub open spec fn text_of(sentence: Option<String>) -> Option<Seq<char>> {
    match sentence {
        Some(text) => Some(text@),
        None => None,
    }
}

/// The name under which the errors of a field are listed.
pub fn field_name(field: Field) -> (name: String)
    ensures
        name@ == field_name_text(field),
{
    match field {
        Field::FirstName => String::from_str("first_name"),
        Field::LastName => String::from_str("last_name"),
        Field::Email => String::from_str("email"),
        Field::Password => String::from_str("password"),
        Field::ConfirmPassword => String::from_str("confirm_password"),
        Field::All => String::from_str("__all__"),
    }
}

/// The code of an error.
pub fn code(kind: ErrorKind) -> (text: String)
    ensures
        text@ == code_text(kind),
{
    match kind {
        ErrorKind::Required => String::from_str("length"),
        ErrorKind::EmailFormat => String::from_str("email"),
        ErrorKind::PasswordRule(PasswordRule::MinLength) => String::from_str("length"),
        ErrorKind::PasswordRule(_) => String::from_str("regex"),
        ErrorKind::PasswordMismatch => String::from_str("must_match"),
        ErrorKind::EmailTaken => String::from_str("email"),
        ErrorKind::InvalidCredentials => String::from_str("invalid"),
        ErrorKind::StoreUnavailable => String::from_str("registration_error"),
        ErrorKind::Hashing => String::from_str("registration_error"),
    }
}

/// The sentence for a failed rule.
pub fn rule_message(rule: PasswordRule) -> (text: String)
    ensures
        text@ == rule_message_text(rule),
{
    match rule {
        PasswordRule::Uppercase => String::from_str(
            "Password must contain at least one uppercase character",
        ),
        PasswordRule::Lowercase => String::from_str(
            "Password must contain at least one lowercase character",
        ),
        PasswordRule::Digit => String::from_str("Password must contain at least one number"),
        PasswordRule::Special => String::from_str(
            "Password must contain at least one special character",
        ),
        PasswordRule::NoWhitespace => String::from_str("Password must not contain spaces"),
        PasswordRule::MinLength => String::from_str("Password must be at least 8 characters"),
    }
}

/// The sentence for an error, where it has one.
pub fn message(form: FormKind, error: FieldError) -> (sentence: Option<String>)
    ensures
        text_of(sentence) == message_text(form, error),
{
    match error.kind {
        ErrorKind::Required => match error.field {
            Field::FirstName => Some(String::from_str("First name required")),
            Field::LastName => Some(String::from_str("Last name required")),
            Field::Email => Some(String::from_str("Email required")),
            Field::Password => match form {
                FormKind::Login => Some(String::from_str("Password Required")),
                FormKind::Registration => Some(String::from_str("Password required")),
            },
            Field::ConfirmPassword => Some(String::from_str("Password confirmation required")),
            Field::All => None,
        },
        ErrorKind::EmailFormat => None,
        ErrorKind::PasswordRule(rule) => Some(rule_message(rule)),
        ErrorKind::PasswordMismatch => Some(String::from_str("Passwords must match")),
        ErrorKind::EmailTaken => None,
        ErrorKind::InvalidCredentials => Some(String::from_str("Invalid Credentials")),
        ErrorKind::StoreUnavailable => Some(
            String::from_str("An error occured during registration"),
        ),
        ErrorKind::Hashing => Some(String::from_str("An error occured during registration")),
    }
}

} // verus!
