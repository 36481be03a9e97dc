//! The registration processor: a submission passes four gates in turn, and
//! any of them can reject it. Asking the store is left to the caller, who hands
//! its answers back as events.

use crate::errors::{ErrorKind, Field, FieldError, ValidationErrors};
use crate::hasher::{
    digest_text, digest_verifies, is_digest_of, password_hasher_with, recommended_params,
    HashParams,
};
use crate::models::{
    findings_of, misshaped_email, registration_errors, Findings, NewUser, NewUserData,
    RegistrationData, UserRegistration,
};
use crate::store::{
    create_user, custom_registration_email_validator, email_is_free, insertion_result,
    InsertFailure, StoreFailure,
};
use vstd::prelude::*;

verus! {

/// How far a registration has come.
#[derive(PartialEq, Eq)]
pub enum RegistrationState {
    /// Submitted, not looked at yet.
    Received(UserRegistration),
    /// Every field passes the structural rules.
    StructurallyValidated(UserRegistration),
    /// No record with the email was found.
    EmailChecked(UserRegistration),
    /// The record is ready for the store, the digest in place of the password.
    PasswordHashed(NewUser),
    /// The store took the record and gave it this id.
    Persisted(i32),
    /// A gate turned the submission down.
    Rejected(ValidationErrors),
    /// The caller gave the submission up.
    Cancelled,
}

/// The texts of a `RegistrationState`.
pub enum RegistrationPhase {
    Received(RegistrationData),
    StructurallyValidated(RegistrationData),
    EmailChecked(RegistrationData),
    PasswordHashed(NewUserData),
    Persisted(i32),
    Rejected(Seq<FieldError>),
    Cancelled,
}

impl View for RegistrationState {
    type V = RegistrationPhase;

    open spec fn view(&self) -> RegistrationPhase {
        match self {
            RegistrationState::Received(user) => RegistrationPhase::Received(user@),
            RegistrationState::StructurallyValidated(user) => {
                RegistrationPhase::StructurallyValidated(user@)
            },
            RegistrationState::EmailChecked(user) => RegistrationPhase::EmailChecked(user@),
            RegistrationState::PasswordHashed(record) => RegistrationPhase::PasswordHashed(record@),
            RegistrationState::Persisted(id) => RegistrationPhase::Persisted(*id),
            RegistrationState::Rejected(errors) => RegistrationPhase::Rejected(errors@),
            RegistrationState::Cancelled => RegistrationPhase::Cancelled,
        }
    }
}

/// What the caller reports to the processor.
#[derive(Clone, Copy, Debug, PartialEq, Eq)]
pub enum RegistrationEvent {
    /// Nothing happened outside: go on.
    Proceed,
    /// The store counted the records with the submission's email.
    EmailCounted(Result<usize, StoreFailure>),
    /// The store was handed the new record.
    Inserted(Result<i32, InsertFailure>),
    /// The caller gives the submission up.
    Cancel,
}

/// What the caller has to do before the next step.
#[derive(Clone, Copy, Debug, PartialEq, Eq, Structural)]
pub enum RegistrationAction {
    /// Nothing outside: report `Proceed`.
    Step,
    /// Count the records with the submission's email, and report `EmailCounted`.
    CountEmail,
    /// Hand the record to the store, and report `Inserted`.
    InsertUser,
    /// The registration is over.
    Finish,
}

impl RegistrationPhase {
    /// Whether the registration is over.
    pub open spec fn is_final(self) -> bool {
        self is Persisted || self is Rejected || self is Cancelled
    }

    /// What the caller has to do in this phase.
    pub open spec fn awaits(self) -> RegistrationAction {
        match self {
            RegistrationPhase::Received(_) => RegistrationAction::Step,
            RegistrationPhase::StructurallyValidated(_) => RegistrationAction::CountEmail,
            RegistrationPhase::EmailChecked(_) => RegistrationAction::Step,
            RegistrationPhase::PasswordHashed(_) => RegistrationAction::InsertUser,
            RegistrationPhase::Persisted(_) => RegistrationAction::Finish,
            RegistrationPhase::Rejected(_) => RegistrationAction::Finish,
            RegistrationPhase::Cancelled => RegistrationAction::Finish,
        }
    }
}

/// The record of a registration: its names and email, and a digest in place of
/// the password.
pub open spec fn record_of(user: RegistrationData, digest: Seq<char>) -> NewUserData {
    NewUserData {
        first_name: user.first_name,
        last_name: user.last_name,
        email: user.email,
        password: digest,
    }
}

/// The phase after the first gate: on, or rejected with every structural error.
pub open spec fn after_validation(user: RegistrationData, found: Findings) -> RegistrationPhase {
    if registration_errors(user, found).len() == 0 {
        RegistrationPhase::StructurallyValidated(user)
    } else {
        RegistrationPhase::Rejected(registration_errors(user, found))
    }
}

/// The phase after the second gate.
pub open spec fn after_count(
    user: RegistrationData,
    found: Result<usize, StoreFailure>,
) -> RegistrationPhase {
    match email_is_free(found) {
        Ok(()) => RegistrationPhase::EmailChecked(user),
        Err(error) => RegistrationPhase::Rejected(seq![error]),
    }
}

/// The phase after the third gate, for a given outcome of the hashing.
pub open spec fn after_hashing(
    user: RegistrationData,
    digest: Result<Seq<char>, ErrorKind>,
) -> RegistrationPhase {
    match digest {
        Ok(text) => RegistrationPhase::PasswordHashed(record_of(user, text)),
        Err(_) => RegistrationPhase::Rejected(
            seq![FieldError { field: Field::All, kind: ErrorKind::Hashing }],
        ),
    }
}

/// The phase after the fourth gate.
pub open spec fn after_insertion(outcome: Result<i32, InsertFailure>) -> RegistrationPhase {
    match insertion_result(outcome) {
        Ok(id) => RegistrationPhase::Persisted(id),
        Err(error) => RegistrationPhase::Rejected(seq![error]),
    }
}

/// One step of the processor, as a relation between the phase before, the
/// event and the phase after. Only the third gate leaves a choice: the hashing
/// may fail, and where it succeeds the digest depends on the salt drawn.
pub open spec fn registration_step(
    before: RegistrationPhase,
    event: RegistrationEvent,
    after: RegistrationPhase,
) -> bool {
    if before.is_final() {
        after == before
    } else if event is Cancel {
        after == RegistrationPhase::Cancelled
    } else {
        match (before, event) {
            (RegistrationPhase::Received(user), RegistrationEvent::Proceed) => after
                == after_validation(user, findings_of(user)),
            (
                RegistrationPhase::StructurallyValidated(user),
                RegistrationEvent::EmailCounted(found),
            ) => after == after_count(user, found),
            (RegistrationPhase::EmailChecked(user), RegistrationEvent::Proceed) => {
                ||| after == after_hashing(user, Err(ErrorKind::Hashing))
                ||| exists|digest: Seq<char>|
                    after == #[trigger] after_hashing(user, Ok(digest)) && digest_verifies(
                        user.password,
                        digest,
                    )
            },
            (RegistrationPhase::PasswordHashed(_), RegistrationEvent::Inserted(outcome)) => after
                == after_insertion(outcome),
            _ => after == before,
        }
    }
}

/// The record's view, or the error.
pub open spec fn record_text(record: Result<NewUser, FieldError>) -> Result<
    NewUserData,
    FieldError,
> {
    match record {
        Ok(new_user) => Ok(new_user@),
        Err(error) => Err(error),
    }
}

/// The record for a given outcome of the hashing, or the one error that a
/// failed hashing shows.
pub open spec fn registered(user: RegistrationData, digest: Result<Seq<char>, ErrorKind>) -> Result<
    NewUserData,
    FieldError,
> {
    match digest {
        Ok(text) => Ok(record_of(user, text)),
        Err(_) => Err(FieldError { field: Field::All, kind: ErrorKind::Hashing }),
    }
}

/// Builds the record of a registration from the outcome of hashing its
/// password. The password itself is dropped here.
pub fn register_with_digest(user: UserRegistration, digest: Result<String, ErrorKind>) -> (record:
    Result<NewUser, FieldError>)
    ensures
        record_text(record) == registered(user@, digest_text(digest)),
{
    match digest {
        Ok(text) => Ok(
            NewUser {
                first_name: user.first_name,
                last_name: user.last_name,
                email: user.email,
                password: text,
            },
        ),
        Err(_) => Err(FieldError { field: Field::All, kind: ErrorKind::Hashing }),
    }
}

/// What `register` may give for a submission under given parameters: a record
/// with the submission's names and email and a digest of its password, or the
/// error `Hashing` on the whole submission.
pub open spec fn is_registered(
    user: RegistrationData,
    params: HashParams,
    record: Result<NewUserData, FieldError>,
) -> bool {
    match record {
        Ok(new_user) => new_user == record_of(user, new_user.password) && digest_verifies(
            user.password,
            new_user.password,
        ) && is_digest_of(user.password, new_user.password, params),
        Err(error) => error == (FieldError { field: Field::All, kind: ErrorKind::Hashing }),
    }
}

/// Hashes the password of a registration under the given parameters and
/// builds its record. The record holds a digest that verifies against the
/// submitted password.
pub fn register_with(user: UserRegistration, params: HashParams) -> (record: Result<
    NewUser,
    FieldError,
>)
    ensures
        is_registered(user@, params, record_text(record)),
{
    let digest = password_hasher_with(user.password.as_str(), params);
    register_with_digest(user, digest)
}

/// Hashes the password of a registration under the recommended parameters and
/// builds its record.
pub fn register(user: UserRegistration) -> (record: Result<NewUser, FieldError>)
    ensures
        is_registered(user@, recommended_params(), record_text(record)),
{
    register_with(user, HashParams::recommended())
}

/// Leads a submission through the first gate.
fn validated(user: UserRegistration) -> (next: RegistrationState)
    ensures
        next@ == after_validation(user@, findings_of(user@)),
        !user.email@.contains('@') ==> (next@ is Rejected && next@->Rejected_0.contains(
            misshaped_email(),
        )),
{
    match user.validate() {
        Ok(()) => RegistrationState::StructurallyValidated(user),
        Err(errors) => RegistrationState::Rejected(errors),
    }
}

impl RegistrationState {
    /// Starts the processor on a submission.
    pub fn new(user: UserRegistration) -> (state: RegistrationState)
        ensures
            state@ == RegistrationPhase::Received(user@),
    {
        RegistrationState::Received(user)
    }

    /// Whether the registration is over.
    pub fn is_final(&self) -> (over: bool)
        ensures
            over == self@.is_final(),
    {
        match self {
            RegistrationState::Persisted(_) => true,
            RegistrationState::Rejected(_) => true,
            RegistrationState::Cancelled => true,
            _ => false,
        }
    }

    /// What the caller has to do before the next step.
    pub fn awaits(&self) -> (action: RegistrationAction)
        ensures
            action == self@.awaits(),
    {
        match self {
            RegistrationState::Received(_) => RegistrationAction::Step,
            RegistrationState::StructurallyValidated(_) => RegistrationAction::CountEmail,
            RegistrationState::EmailChecked(_) => RegistrationAction::Step,
            RegistrationState::PasswordHashed(_) => RegistrationAction::InsertUser,
            RegistrationState::Persisted(_) => RegistrationAction::Finish,
            RegistrationState::Rejected(_) => RegistrationAction::Finish,
            RegistrationState::Cancelled => RegistrationAction::Finish,
        }
    }

    /// Takes one step, hashing under the recommended parameters.
    pub fn advance(self, event: RegistrationEvent) -> (next: RegistrationState)
        ensures
            registration_step(self@, event, next@),
            self@ is Received && event is Proceed && !self@->Received_0.email.contains('@') ==> (
            next@ is Rejected && next@->Rejected_0.contains(misshaped_email())),
    {
        self.advance_with(event, HashParams::recommended())
    }

    /// Takes one step, hashing under the given parameters. A finished
    /// registration stays as it is; so does one that is told of something it
    /// did not wait for. `Cancel` ends any registration that is not over. A
    /// submission whose email holds no `@` is rejected at the first step.
    pub fn advance_with(self, event: RegistrationEvent, params: HashParams) -> (next:
        RegistrationState)
        ensures
            registration_step(self@, event, next@),
            self@ is Received && event is Proceed && !self@->Received_0.email.contains('@') ==> (
            next@ is Rejected && next@->Rejected_0.contains(misshaped_email())),
            self@ is EmailChecked && event is Proceed && next@ is PasswordHashed ==> is_digest_of(
                self@->EmailChecked_0.password,
                next@->PasswordHashed_0.password,
                params,
            ),
    {
        if self.is_final() {
            return self;
        }
        match event {
            RegistrationEvent::Cancel => RegistrationState::Cancelled,
            RegistrationEvent::Proceed => match self {
                RegistrationState::Received(user) => validated(user),
                RegistrationState::EmailChecked(user) => {
                    let ghost data = user@;
                    match register_with(user, params) {
                        Ok(record) => {
                            assert(RegistrationPhase::PasswordHashed(record@) == after_hashing(
                                data,
                                Ok(record.password@),
                            ));
                            RegistrationState::PasswordHashed(record)
                        },
                        Err(error) => RegistrationState::Rejected(ValidationErrors::single(error)),
                    }
                },
                other => other,
            },
            RegistrationEvent::EmailCounted(found) => match self {
                RegistrationState::StructurallyValidated(user) => {
                    match custom_registration_email_validator(found) {
                        Ok(()) => RegistrationState::EmailChecked(user),
                        Err(error) => RegistrationState::Rejected(ValidationErrors::single(error)),
                    }
                },
                other => other,
            },
            RegistrationEvent::Inserted(outcome) => match self {
                RegistrationState::PasswordHashed(_) => match create_user(outcome) {
                    Ok(id) => RegistrationState::Persisted(id),
                    Err(error) => RegistrationState::Rejected(ValidationErrors::single(error)),
                },
                other => other,
            },
        }
    }
}

} // verus!
