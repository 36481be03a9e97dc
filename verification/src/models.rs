//! The submissions and the user records, and the structural validation of a
//! submission: every rule is applied, and every failure is reported.

use crate::email::{email_shape, has_email_shape};
use crate::errors::{
    error_if, lemma_concat_contains, lemma_error_if_contains, ErrorKind, Field, FieldError,
    ValidationErrors,
};
use crate::rules::{
    check_rule_given, composition_of, find_composition, rule_holds_given, Composition,
    PasswordRule,
};
use vstd::prelude::*;

verus! {

/// The date and time of `chrono`, carried as it is and never looked into.
#[verifier::external_type_specification]
#[verifier::external_body]
pub struct ExNaiveDateTime(chrono::NaiveDateTime);

/// A record of the user store. The store assigns `id` and both times;
/// `password` is the digest, never the password itself.
#[derive(Debug, PartialEq, Eq)]
pub struct User {
    pub id: i32,
    pub first_name: String,
    pub last_name: String,
    pub email: String,
    pub password: String,
    pub created_at: chrono::NaiveDateTime,
    pub updated_at: chrono::NaiveDateTime,
}

/// What is handed to the store for insertion; `password` is the digest.
#[derive(Clone, Debug, PartialEq, Eq)]
pub struct NewUser {
    pub first_name: String,
    pub last_name: String,
    pub email: String,
    pub password: String,
}

/// A login as it was submitted. It holds the password as it was typed, and
/// so has no `Debug` form.
#[derive(Clone, PartialEq, Eq)]
pub struct UserLogin {
    pub email: String,
    pub password: String,
}

/// A registration as it was submitted. It holds the password as it was
/// typed, and so has no `Debug` form.
#[derive(Clone, PartialEq, Eq)]
pub struct UserRegistration {
    pub first_name: String,
    pub last_name: String,
    pub email: String,
    pub password: String,
    pub confirm_password: String,
}

/// The texts of a `NewUser`.
pub struct NewUserData {
    pub first_name: Seq<char>,
    pub last_name: Seq<char>,
    pub email: Seq<char>,
    pub password: Seq<char>,
}

/// The texts of a `UserLogin`.
pub struct LoginData {
    pub email: Seq<char>,
    pub password: Seq<char>,
}

/// The texts of a `UserRegistration`.
pub struct RegistrationData {
    pub first_name: Seq<char>,
    pub last_name: Seq<char>,
    pub email: Seq<char>,
    pub password: Seq<char>,
    pub confirm_password: Seq<char>,
}

impl View for NewUser {
    type V = NewUserData;

    open spec fn view(&self) -> NewUserData {
        NewUserData {
            first_name: self.first_name@,
            last_name: self.last_name@,
            email: self.email@,
            password: self.password@,
        }
    }
}

impl View for UserLogin {
    type V = LoginData;

    open spec fn view(&self) -> LoginData {
        LoginData { email: self.email@, password: self.password@ }
    }
}

impl View for UserRegistration {
    type V = RegistrationData;

    open spec fn view(&self) -> RegistrationData {
        RegistrationData {
            first_name: self.first_name@,
            last_name: self.last_name@,
            email: self.email@,
            password: self.password@,
            confirm_password: self.confirm_password@,
        }
    }
}

/// What the outside crates find in the texts of a registration: whether the
/// email has the shape of an address, and what the patterns find in the
/// password and in its confirmation.
#[derive(Clone, Copy, Debug, PartialEq, Eq, Structural)]
pub struct Findings {
    pub email_shaped: bool,
    pub password: Composition,
    pub confirm_password: Composition,
}

/// What the outside crates find in the texts of `user`.
pub open spec fn findings_of(user: RegistrationData) -> Findings {
    Findings {
        email_shaped: email_shape(user.email),
        password: composition_of(user.password),
        confirm_password: composition_of(user.confirm_password),
    }
}

/// The error of `rule` on `field` where `value` fails the rule.
pub open spec fn rule_error(
    field: Field,
    rule: PasswordRule,
    value: Seq<char>,
    found: Composition,
) -> Seq<FieldError> {
    error_if(!rule_holds_given(rule, value, found), field, ErrorKind::PasswordRule(rule))
}

/// The errors of the five rules on the characters of `value`, in their order.
pub open spec fn composition_errors(field: Field, value: Seq<char>, found: Composition) -> Seq<
    FieldError,
> {
    rule_error(field, PasswordRule::Uppercase, value, found) + rule_error(
        field,
        PasswordRule::Lowercase,
        value,
        found,
    ) + rule_error(field, PasswordRule::Digit, value, found) + rule_error(
        field,
        PasswordRule::Special,
        value,
        found,
    ) + rule_error(field, PasswordRule::NoWhitespace, value, found)
}

/// Every structural error of a login, in order; `shape_ok` says whether the
/// email has the shape of an address.
pub open spec fn login_errors(login: LoginData, shape_ok: bool) -> Seq<FieldError> {
    error_if(login.email.len() == 0, Field::Email, ErrorKind::Required) + error_if(
        !shape_ok,
        Field::Email,
        ErrorKind::EmailFormat,
    ) + error_if(login.password.len() == 0, Field::Password, ErrorKind::Required)
}

/// The errors of the email of a registration.
pub open spec fn email_errors(email: Seq<char>, shape_ok: bool) -> Seq<FieldError> {
    error_if(!shape_ok, Field::Email, ErrorKind::EmailFormat) + error_if(
        email.len() == 0,
        Field::Email,
        ErrorKind::Required,
    )
}

/// The errors of the password of a registration. A password that differs from
/// its confirmation is reported here and on the confirmation, both.
pub open spec fn password_errors(
    password: Seq<char>,
    confirm_password: Seq<char>,
    found: Composition,
) -> Seq<FieldError> {
    composition_errors(Field::Password, password, found) + error_if(
        password != confirm_password,
        Field::Password,
        ErrorKind::PasswordMismatch,
    ) + rule_error(Field::Password, PasswordRule::MinLength, password, found) + error_if(
        password.len() == 0,
        Field::Password,
        ErrorKind::Required,
    )
}

/// The errors of the confirmation of a registration: it is held to the same
/// rules as the password.
pub open spec fn confirmation_errors(
    password: Seq<char>,
    confirm_password: Seq<char>,
    found: Composition,
) -> Seq<FieldError> {
    error_if(confirm_password.len() == 0, Field::ConfirmPassword, ErrorKind::Required)
        + rule_error(Field::ConfirmPassword, PasswordRule::MinLength, confirm_password, found)
        + error_if(
        password != confirm_password,
        Field::ConfirmPassword,
        ErrorKind::PasswordMismatch,
    ) + composition_errors(Field::ConfirmPassword, confirm_password, found)
}

/// Every structural error of a registration, field by field in the order of
/// the fields, given what the outside crates find in its texts.
pub open spec fn registration_errors(user: RegistrationData, found: Findings) -> Seq<FieldError> {
    error_if(user.first_name.len() == 0, Field::FirstName, ErrorKind::Required) + error_if(
        user.last_name.len() == 0,
        Field::LastName,
        ErrorKind::Required,
    ) + email_errors(user.email, found.email_shaped) + password_errors(
        user.password,
        user.confirm_password,
        found.password,
    ) + confirmation_errors(user.password, user.confirm_password, found.confirm_password)
}

/// A validation's result for a given list of errors: `Ok` where the list is
/// empty, and the whole list otherwise.
pub open spec fn reports(result: Result<(), ValidationErrors>, errors: Seq<FieldError>) -> bool {
    match result {
        Ok(()) => errors.len() == 0,
        Err(found) => found@ == errors && errors.len() > 0,
    }
}

/// The error of an email that has not the shape of an address.
pub open spec fn misshaped_email() -> FieldError {
    FieldError { field: Field::Email, kind: ErrorKind::EmailFormat }
}

/// A login whose email has not the shape of an address has that error among
/// its errors.
pub proof fn lemma_misshaped_login(login: LoginData, shape_ok: bool)
    ensures
        !shape_ok ==> login_errors(login, shape_ok).contains(misshaped_email()),
{
    let a = error_if(login.email.len() == 0, Field::Email, ErrorKind::Required);
    let b = error_if(!shape_ok, Field::Email, ErrorKind::EmailFormat);
    let c = error_if(login.password.len() == 0, Field::Password, ErrorKind::Required);
    lemma_error_if_contains(!shape_ok, Field::Email, ErrorKind::EmailFormat, misshaped_email());
    lemma_concat_contains(a, b, misshaped_email());
    lemma_concat_contains(a + b, c, misshaped_email());
}

/// A registration whose email has not the shape of an address has that error
/// among its errors.
pub proof fn lemma_misshaped_registration(user: RegistrationData, found: Findings)
    ensures
        !found.email_shaped ==> registration_errors(user, found).contains(misshaped_email()),
{
    let shape_ok = found.email_shaped;
    let a = error_if(user.first_name.len() == 0, Field::FirstName, ErrorKind::Required);
    let b = error_if(user.last_name.len() == 0, Field::LastName, ErrorKind::Required);
    let c = email_errors(user.email, shape_ok);
    let d = password_errors(user.password, user.confirm_password, found.password);
    let e = confirmation_errors(user.password, user.confirm_password, found.confirm_password);
    let c1 = error_if(!shape_ok, Field::Email, ErrorKind::EmailFormat);
    let c2 = error_if(user.email.len() == 0, Field::Email, ErrorKind::Required);
    lemma_error_if_contains(!shape_ok, Field::Email, ErrorKind::EmailFormat, misshaped_email());
    lemma_concat_contains(c1, c2, misshaped_email());
    lemma_concat_contains(a, b, misshaped_email());
    lemma_concat_contains(a + b, c, misshaped_email());
    lemma_concat_contains(a + b + c, d, misshaped_email());
    lemma_concat_contains(a + b + c + d, e, misshaped_email());
}

/// Appends the errors of the five rules on the characters of `value`.
fn add_composition_errors(
    errors: &mut ValidationErrors,
    field: Field,
    value: &str,
    found: Composition,
)
    ensures
        final(errors)@ == old(errors)@ + composition_errors(field, value@, found),
{
    errors.add_if(
        !check_rule_given(PasswordRule::Uppercase, value, found),
        field,
        ErrorKind::PasswordRule(PasswordRule::Uppercase),
    );
    errors.add_if(
        !check_rule_given(PasswordRule::Lowercase, value, found),
        field,
        ErrorKind::PasswordRule(PasswordRule::Lowercase),
    );
    errors.add_if(
        !check_rule_given(PasswordRule::Digit, value, found),
        field,
        ErrorKind::PasswordRule(PasswordRule::Digit),
    );
    errors.add_if(
        !check_rule_given(PasswordRule::Special, value, found),
        field,
        ErrorKind::PasswordRule(PasswordRule::Special),
    );
    errors.add_if(
        !check_rule_given(PasswordRule::NoWhitespace, value, found),
        field,
        ErrorKind::PasswordRule(PasswordRule::NoWhitespace),
    );
    assert(errors@ =~= old(errors)@ + composition_errors(field, value@, found));
}

/// Appends the errors of the email of a registration.
fn add_email_errors(errors: &mut ValidationErrors, email: &str, shape_ok: bool)
    ensures
        final(errors)@ == old(errors)@ + email_errors(email@, shape_ok),
{
    errors.add_if(!shape_ok, Field::Email, ErrorKind::EmailFormat);
    errors.add_if(email.is_empty(), Field::Email, ErrorKind::Required);
    assert(errors@ =~= old(errors)@ + email_errors(email@, shape_ok));
}

/// Appends the errors of the password of a registration.
fn add_password_errors(
    errors: &mut ValidationErrors,
    password: &String,
    confirm_password: &String,
    found: Composition,
)
    ensures
        final(errors)@ == old(errors)@ + password_errors(password@, confirm_password@, found),
{
    add_composition_errors(errors, Field::Password, password.as_str(), found);
    errors.add_if(*password != *confirm_password, Field::Password, ErrorKind::PasswordMismatch);
    errors.add_if(
        !check_rule_given(PasswordRule::MinLength, password.as_str(), found),
        Field::Password,
        ErrorKind::PasswordRule(PasswordRule::MinLength),
    );
    errors.add_if(password.as_str().is_empty(), Field::Password, ErrorKind::Required);
    assert(errors@ =~= old(errors)@ + password_errors(password@, confirm_password@, found));
}

/// Appends the errors of the confirmation of a registration.
fn add_confirmation_errors(
    errors: &mut ValidationErrors,
    password: &String,
    confirm_password: &String,
    found: Composition,
)
    ensures
        final(errors)@ == old(errors)@ + confirmation_errors(
            password@,
            confirm_password@,
            found,
        ),
{
    errors.add_if(
        confirm_password.as_str().is_empty(),
        Field::ConfirmPassword,
        ErrorKind::Required,
    );
    errors.add_if(
        !check_rule_given(PasswordRule::MinLength, confirm_password.as_str(), found),
        Field::ConfirmPassword,
        ErrorKind::PasswordRule(PasswordRule::MinLength),
    );
    errors.add_if(
        *password != *confirm_password,
        Field::ConfirmPassword,
        ErrorKind::PasswordMismatch,
    );
    add_composition_errors(errors, Field::ConfirmPassword, confirm_password.as_str(), found);
    assert(errors@ =~= old(errors)@ + confirmation_errors(password@, confirm_password@, found));
}

/// `Ok` for an empty list, and the list as the error otherwise.
fn into_result(errors: ValidationErrors) -> (result: Result<(), ValidationErrors>)
    ensures
        reports(result, errors@),
{
    if errors.is_empty() {
        Ok(())
    } else {
        Err(errors)
    }
}

impl UserLogin {
    /// Validates the login: both fields present, the email shaped as an
    /// address. No rule of composition is applied to the password.
    pub fn validate(&self) -> (result: Result<(), ValidationErrors>)
        ensures
            reports(result, login_errors(self@, email_shape(self.email@))),
            !self.email@.contains('@') ==> (result matches Err(errors) && errors@.contains(
                misshaped_email(),
            )),
    {
        let shape_ok = has_email_shape(self.email.as_str());
        proof {
            lemma_misshaped_login(self@, shape_ok);
        }
        self.validate_shaped(shape_ok)
    }

    /// Validates the login, given whether its email has the shape of an
    /// address.
    pub fn validate_shaped(&self, shape_ok: bool) -> (result: Result<(), ValidationErrors>)
        ensures
            reports(result, login_errors(self@, shape_ok)),
    {
        let mut errors = ValidationErrors::new();
        errors.add_if(self.email.as_str().is_empty(), Field::Email, ErrorKind::Required);
        errors.add_if(!shape_ok, Field::Email, ErrorKind::EmailFormat);
        errors.add_if(self.password.as_str().is_empty(), Field::Password, ErrorKind::Required);
        assert(errors@ =~= login_errors(self@, shape_ok));
        into_result(errors)
    }
}

impl UserRegistration {
    /// Asks the outside crates about the texts of the registration.
    pub fn findings(&self) -> (found: Findings)
        ensures
            found == findings_of(self@),
            !self.email@.contains('@') ==> !found.email_shaped,
    {
        Findings {
            email_shaped: has_email_shape(self.email.as_str()),
            password: find_composition(self.password.as_str()),
            confirm_password: find_composition(self.confirm_password.as_str()),
        }
    }

    /// Validates the registration: every field present, the email shaped as an
    /// address, password and confirmation equal and each well composed. Every
    /// failure is reported, not only the first.
    pub fn validate(&self) -> (result: Result<(), ValidationErrors>)
        ensures
            reports(result, registration_errors(self@, findings_of(self@))),
            !self.email@.contains('@') ==> (result matches Err(errors) && errors@.contains(
                misshaped_email(),
            )),
    {
        let found = self.findings();
        proof {
            lemma_misshaped_registration(self@, found);
        }
        self.validate_given(found)
    }

    /// Validates the registration, given what the outside crates find in its
    /// texts.
    pub fn validate_given(&self, found: Findings) -> (result: Result<(), ValidationErrors>)
        ensures
            reports(result, registration_errors(self@, found)),
    {
        let mut errors = ValidationErrors::new();
        errors.add_if(self.first_name.as_str().is_empty(), Field::FirstName, ErrorKind::Required);
        errors.add_if(self.last_name.as_str().is_empty(), Field::LastName, ErrorKind::Required);
        add_email_errors(&mut errors, self.email.as_str(), found.email_shaped);
        add_password_errors(&mut errors, &self.password, &self.confirm_password, found.password);
        add_confirmation_errors(
            &mut errors,
            &self.password,
            &self.confirm_password,
            found.confirm_password,
        );
        assert(errors@ =~= registration_errors(self@, found));
        into_result(errors)
    }
}

} // verus!
