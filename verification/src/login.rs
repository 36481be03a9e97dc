//! The login processor: a submission is validated, then held against the one
//! stored digest for its email. Whatever fails after validation, the caller
//! learns the same thing: the credentials are invalid.

use crate::email::email_shape;
use crate::errors::{ErrorKind, Field, FieldError, ValidationErrors};
use crate::hasher::{verdict_of, digest_verifies, password_hash_checker, verdict_outcome};
use crate::models::{login_errors, misshaped_email, LoginData, UserLogin};
use crate::store::{count_check, email_count, StoreFailure};
use vstd::prelude::*;

verus! {

/// How far a login has come.
#[derive(PartialEq, Eq)]
pub enum LoginState {
    /// Submitted, not looked at yet.
    Received(UserLogin),
    /// Both fields pass the structural rules.
    StructurallyValidated(UserLogin),
    /// The password matches the stored digest.
    Authenticated,
    /// A gate turned the submission down.
    Rejected(ValidationErrors),
    /// The caller gave the submission up.
    Cancelled,
}

/// The texts of a `LoginState`.
pub enum LoginPhase {
    Received(LoginData),
    StructurallyValidated(LoginData),
    Authenticated,
    Rejected(Seq<FieldError>),
    Cancelled,
}

impl View for LoginState {
    type V = LoginPhase;

    open spec fn view(&self) -> LoginPhase {
        match self {
            LoginState::Received(login) => LoginPhase::Received(login@),
            LoginState::StructurallyValidated(login) => LoginPhase::StructurallyValidated(login@),
            LoginState::Authenticated => LoginPhase::Authenticated,
            LoginState::Rejected(errors) => LoginPhase::Rejected(errors@),
            LoginState::Cancelled => LoginPhase::Cancelled,
        }
    }
}

/// What the caller reports to the processor.
#[derive(Debug, PartialEq, Eq)]
pub enum LoginEvent {
    /// Nothing happened outside: go on.
    Proceed,
    /// The store looked for the records with the submission's email and gave
    /// their digests.
    Found(Result<Vec<String>, StoreFailure>),
    /// The caller gives the submission up.
    Cancel,
}

/// The texts of a `LoginEvent`.
pub enum LoginSignal {
    Proceed,
    Found(Result<Seq<Seq<char>>, StoreFailure>),
    Cancel,
}

/// The texts of the digests that the store gave.
pub open spec fn digest_texts(found: Result<Vec<String>, StoreFailure>) -> Result<
    Seq<Seq<char>>,
    StoreFailure,
> {
    match found {
        Ok(digests) => Ok(digests@.map_values(|digest: String| digest@)),
        Err(failure) => Err(failure),
    }
}

impl View for LoginEvent {
    type V = LoginSignal;

    open spec fn view(&self) -> LoginSignal {
        match self {
            LoginEvent::Proceed => LoginSignal::Proceed,
            LoginEvent::Found(found) => LoginSignal::Found(digest_texts(*found)),
            LoginEvent::Cancel => LoginSignal::Cancel,
        }
    }
}

/// What the caller has to do before the next step.
#[derive(Clone, Copy, Debug, PartialEq, Eq, Structural)]
pub enum LoginAction {
    /// Nothing outside: report `Proceed`.
    Step,
    /// Look for the records with the submission's email, and report `Found`
    /// with their digests.
    FindDigests,
    /// The login is over.
    Finish,
}

impl LoginPhase {
    /// Whether the login is over.
    pub open spec fn is_final(self) -> bool {
        self is Authenticated || self is Rejected || self is Cancelled
    }

    /// What the caller has to do in this phase.
    pub open spec fn awaits(self) -> LoginAction {
        match self {
            LoginPhase::Received(_) => LoginAction::Step,
            LoginPhase::StructurallyValidated(_) => LoginAction::FindDigests,
            LoginPhase::Authenticated => LoginAction::Finish,
            LoginPhase::Rejected(_) => LoginAction::Finish,
            LoginPhase::Cancelled => LoginAction::Finish,
        }
    }
}

/// The one error of a login that fails after validation.
pub open spec fn invalid_credentials() -> FieldError {
    FieldError { field: Field::All, kind: ErrorKind::InvalidCredentials }
}

/// Whether the store's answer and the hasher's verdict let a login in: exactly
/// one record, and a password that matches its digest. `verdict` is what the
/// hasher found for the first digest, if there is one.
pub open spec fn credentials_hold(
    found: Result<usize, StoreFailure>,
    verdict: Option<Result<bool, ErrorKind>>,
) -> bool {
    count_check(found, 1) is Ok && verdict == Some(Ok::<bool, ErrorKind>(true))
}

/// What the hasher finds for the first digest that the store gave, if any.
pub open spec fn first_verdict(
    password: Seq<char>,
    found: Result<Seq<Seq<char>>, StoreFailure>,
) -> Option<Result<bool, ErrorKind>> {
    match found {
        Ok(digests) => if digests.len() > 0 {
            Some(verdict_outcome(verdict_of(password, digests[0])))
        } else {
            None
        },
        Err(_) => None,
    }
}

/// Whether a login with `password` is let in on the store's answer: the store
/// found exactly one record, and the password matches its digest.
pub open spec fn login_accepted(
    password: Seq<char>,
    found: Result<Seq<Seq<char>>, StoreFailure>,
) -> bool {
    found matches Ok(digests) && digests.len() == 1 && digest_verifies(password, digests[0])
}

/// The phase after the first gate: on, or rejected with every structural error.
pub open spec fn after_validation(login: LoginData, shape_ok: bool) -> LoginPhase {
    if login_errors(login, shape_ok).len() == 0 {
        LoginPhase::StructurallyValidated(login)
    } else {
        LoginPhase::Rejected(login_errors(login, shape_ok))
    }
}

/// The phase after the lookup.
pub open spec fn after_lookup(
    login: LoginData,
    found: Result<Seq<Seq<char>>, StoreFailure>,
) -> LoginPhase {
    if login_accepted(login.password, found) {
        LoginPhase::Authenticated
    } else {
        LoginPhase::Rejected(seq![invalid_credentials()])
    }
}

/// One step of the processor: the phase that follows a phase and an event.
pub open spec fn login_step(before: LoginPhase, event: LoginSignal) -> LoginPhase {
    if before.is_final() {
        before
    } else if event is Cancel {
        LoginPhase::Cancelled
    } else {
        match (before, event) {
            (LoginPhase::Received(login), LoginSignal::Proceed) => after_validation(
                login,
                email_shape(login.email),
            ),
            (LoginPhase::StructurallyValidated(login), LoginSignal::Found(found)) => after_lookup(
                login,
                found,
            ),
            _ => before,
        }
    }
}

/// Decides on the store's answer and the hasher's verdict, both given: `Ok`
/// where exactly one record was found and the password matches its digest, and
/// the one error `InvalidCredentials` in every other case.
pub fn judge_credentials(
    found: Result<usize, StoreFailure>,
    verdict: Option<Result<bool, ErrorKind>>,
) -> (judged: Result<(), FieldError>)
    ensures
        judged == if credentials_hold(found, verdict) {
            Ok::<(), FieldError>(())
        } else {
            Err(invalid_credentials())
        },
{
    let invalid = FieldError { field: Field::All, kind: ErrorKind::InvalidCredentials };
    if email_count(found, 1).is_err() {
        return Err(invalid);
    }
    match verdict {
        Some(Ok(true)) => Ok(()),
        _ => Err(invalid),
    }
}

/// Holds the password of a login against the first digest that the store gave.
/// `None` where the store gave none.
pub fn custom_login_password_validator(
    value: &str,
    found: &Result<Vec<String>, StoreFailure>,
) -> (verdict: Option<Result<bool, ErrorKind>>)
    ensures
        verdict == first_verdict(value@, digest_texts(*found)),
{
    match found {
        Ok(digests) => if digests.len() > 0 {
            Some(password_hash_checker(value, digests[0].as_str()))
        } else {
            None
        },
        Err(_) => None,
    }
}

/// Decides on a login once the store has answered. The error never tells
/// whether the email was unknown, the password wrong, the digest unreadable or
/// the store out of reach.
pub fn custom_login_validator(user_login: &UserLogin, found: &Result<Vec<String>, StoreFailure>) -> (judged:
    Result<(), FieldError>)
    ensures
        judged == if login_accepted(user_login.password@, digest_texts(*found)) {
            Ok::<(), FieldError>(())
        } else {
            Err(invalid_credentials())
        },
{
    let count = match found {
        Ok(digests) => Ok(digests.len()),
        Err(failure) => Err(*failure),
    };
    let verdict = custom_login_password_validator(user_login.password.as_str(), found);
    judge_credentials(count, verdict)
}

impl LoginState {
    /// Starts the processor on a submission.
    pub fn new(login: UserLogin) -> (state: LoginState)
        ensures
            state@ == LoginPhase::Received(login@),
    {
        LoginState::Received(login)
    }

    /// Whether the login is over.
    pub fn is_final(&self) -> (over: bool)
        ensures
            over == self@.is_final(),
    {
        match self {
            LoginState::Authenticated => true,
            LoginState::Rejected(_) => true,
            LoginState::Cancelled => true,
            _ => false,
        }
    }

    /// What the caller has to do before the next step.
    pub fn awaits(&self) -> (action: LoginAction)
        ensures
            action == self@.awaits(),
    {
        match self {
            LoginState::Received(_) => LoginAction::Step,
            LoginState::StructurallyValidated(_) => LoginAction::FindDigests,
            LoginState::Authenticated => LoginAction::Finish,
            LoginState::Rejected(_) => LoginAction::Finish,
            LoginState::Cancelled => LoginAction::Finish,
        }
    }

    /// Takes one step. A finished login stays as it is; so does one that is told
    /// of something it did not wait for. `Cancel` ends any login that is not
    /// over. A submission that fails validation is rejected before the store
    /// is asked; one whose email holds no `@` always is.
    pub fn advance(self, event: LoginEvent) -> (next: LoginState)
        ensures
            next@ == login_step(self@, event@),
            self@ is Received && event@ is Proceed && !self@->Received_0.email.contains('@') ==> (
            next@ is Rejected && next@->Rejected_0.contains(misshaped_email())),
    {
        if self.is_final() {
            return self;
        }
        match event {
            LoginEvent::Cancel => LoginState::Cancelled,
            LoginEvent::Proceed => match self {
                LoginState::Received(login) => match login.validate() {
                    Ok(()) => LoginState::StructurallyValidated(login),
                    Err(errors) => LoginState::Rejected(errors),
                },
                other => other,
            },
            LoginEvent::Found(found) => match self {
                LoginState::StructurallyValidated(login) => {
                    match custom_login_validator(&login, &found) {
                        Ok(()) => LoginState::Authenticated,
                        Err(error) => LoginState::Rejected(ValidationErrors::single(error)),
                    }
                },
                other => other,
            },
        }
    }
}

} // verus!
