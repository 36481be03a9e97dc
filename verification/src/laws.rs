//! What holds of the library as a whole, proved from the contracts of its
//! parts.

use crate::email::email_shape;
use crate::errors::{
    error_if, lemma_concat_contains, lemma_error_if_contains, ErrorKind, Field, FieldError,
};
use crate::hasher::{verdict_of, digest_verifies, verdict_outcome};
use crate::login::{
    invalid_credentials, login_accepted, login_step, LoginAction, LoginPhase, LoginSignal,
};
use crate::models::{
    composition_errors, confirmation_errors, email_errors, findings_of, login_errors,
    misshaped_email, password_errors, registration_errors, rule_error, Findings, LoginData,
    NewUserData, RegistrationData,
};
use crate::registration::{
    registration_step, RegistrationAction, RegistrationEvent, RegistrationPhase,
};
use crate::rules::{rule_holds, rule_holds_given, well_composed, Composition, PasswordRule};
use crate::store::{InsertFailure, StoreFailure, StoreModel};
use vstd::prelude::*;

verus! {

/// The error of an empty field.
pub open spec fn required(field: Field) -> FieldError {
    FieldError { field, kind: ErrorKind::Required }
}

/// Whether the validation of a registration reports `error`, given what the
/// outside crates find in its texts: the one statement of which error is
/// raised when.
pub open spec fn is_reported(user: RegistrationData, found: Findings, error: FieldError) -> bool {
    match error.field {
        Field::FirstName => error.kind == ErrorKind::Required && user.first_name.len() == 0,
        Field::LastName => error.kind == ErrorKind::Required && user.last_name.len() == 0,
        Field::Email => match error.kind {
            ErrorKind::Required => user.email.len() == 0,
            ErrorKind::EmailFormat => !found.email_shaped,
            _ => false,
        },
        Field::Password => match error.kind {
            ErrorKind::Required => user.password.len() == 0,
            ErrorKind::PasswordRule(rule) => !rule_holds_given(rule, user.password, found.password),
            ErrorKind::PasswordMismatch => user.password != user.confirm_password,
            _ => false,
        },
        Field::ConfirmPassword => match error.kind {
            ErrorKind::Required => user.confirm_password.len() == 0,
            ErrorKind::PasswordRule(rule) => !rule_holds_given(
                rule,
                user.confirm_password,
                found.confirm_password,
            ),
            ErrorKind::PasswordMismatch => user.password != user.confirm_password,
            _ => false,
        },
        Field::All => false,
    }
}

proof fn lemma_rule_error_contains(
    field: Field,
    rule: PasswordRule,
    value: Seq<char>,
    found: Composition,
    error: FieldError,
)
    ensures
        rule_error(field, rule, value, found).contains(error) <==> !rule_holds_given(
            rule,
            value,
            found,
        ) && error == (FieldError { field, kind: ErrorKind::PasswordRule(rule) }),
{
    lemma_error_if_contains(
        !rule_holds_given(rule, value, found),
        field,
        ErrorKind::PasswordRule(rule),
        error,
    );
}

proof fn lemma_composition_contains(
    field: Field,
    value: Seq<char>,
    found: Composition,
    error: FieldError,
)
    ensures
        composition_errors(field, value, found).contains(error) <==> error.field == field && (
        error.kind matches ErrorKind::PasswordRule(rule) && rule != PasswordRule::MinLength
            && !rule_holds_given(rule, value, found)),
{
    let a = rule_error(field, PasswordRule::Uppercase, value, found);
    let b = rule_error(field, PasswordRule::Lowercase, value, found);
    let c = rule_error(field, PasswordRule::Digit, value, found);
    let d = rule_error(field, PasswordRule::Special, value, found);
    let e = rule_error(field, PasswordRule::NoWhitespace, value, found);
    lemma_concat_contains(a, b, error);
    lemma_concat_contains(a + b, c, error);
    lemma_concat_contains(a + b + c, d, error);
    lemma_concat_contains(a + b + c + d, e, error);
    lemma_rule_error_contains(field, PasswordRule::Uppercase, value, found, error);
    lemma_rule_error_contains(field, PasswordRule::Lowercase, value, found, error);
    lemma_rule_error_contains(field, PasswordRule::Digit, value, found, error);
    lemma_rule_error_contains(field, PasswordRule::Special, value, found, error);
    lemma_rule_error_contains(field, PasswordRule::NoWhitespace, value, found, error);
}

proof fn lemma_password_contains(
    password: Seq<char>,
    confirm: Seq<char>,
    found: Composition,
    error: FieldError,
)
    ensures
        password_errors(password, confirm, found).contains(error) <==> error.field
            == Field::Password && (match error.kind {
            ErrorKind::Required => password.len() == 0,
            ErrorKind::PasswordRule(rule) => !rule_holds_given(rule, password, found),
            ErrorKind::PasswordMismatch => password != confirm,
            _ => false,
        }),
{
    let a = composition_errors(Field::Password, password, found);
    let b = error_if(password != confirm, Field::Password, ErrorKind::PasswordMismatch);
    let c = rule_error(Field::Password, PasswordRule::MinLength, password, found);
    let d = error_if(password.len() == 0, Field::Password, ErrorKind::Required);
    lemma_concat_contains(a, b, error);
    lemma_concat_contains(a + b, c, error);
    lemma_concat_contains(a + b + c, d, error);
    lemma_composition_contains(Field::Password, password, found, error);
    lemma_error_if_contains(
        password != confirm,
        Field::Password,
        ErrorKind::PasswordMismatch,
        error,
    );
    lemma_rule_error_contains(Field::Password, PasswordRule::MinLength, password, found, error);
    lemma_error_if_contains(password.len() == 0, Field::Password, ErrorKind::Required, error);
}

proof fn lemma_confirmation_contains(
    password: Seq<char>,
    confirm: Seq<char>,
    found: Composition,
    error: FieldError,
)
    ensures
        confirmation_errors(password, confirm, found).contains(error) <==> error.field
            == Field::ConfirmPassword && (match error.kind {
            ErrorKind::Required => confirm.len() == 0,
            ErrorKind::PasswordRule(rule) => !rule_holds_given(rule, confirm, found),
            ErrorKind::PasswordMismatch => password != confirm,
            _ => false,
        }),
{
    let a = error_if(confirm.len() == 0, Field::ConfirmPassword, ErrorKind::Required);
    let b = rule_error(Field::ConfirmPassword, PasswordRule::MinLength, confirm, found);
    let c = error_if(password != confirm, Field::ConfirmPassword, ErrorKind::PasswordMismatch);
    let d = composition_errors(Field::ConfirmPassword, confirm, found);
    lemma_concat_contains(a, b, error);
    lemma_concat_contains(a + b, c, error);
    lemma_concat_contains(a + b + c, d, error);
    lemma_error_if_contains(
        confirm.len() == 0,
        Field::ConfirmPassword,
        ErrorKind::Required,
        error,
    );
    lemma_rule_error_contains(
        Field::ConfirmPassword,
        PasswordRule::MinLength,
        confirm,
        found,
        error,
    );
    lemma_error_if_contains(
        password != confirm,
        Field::ConfirmPassword,
        ErrorKind::PasswordMismatch,
        error,
    );
    lemma_composition_contains(Field::ConfirmPassword, confirm, found, error);
}

/// The validation of a registration reports an error if and only if the rule
/// behind it is broken: nothing that fails goes unreported, and nothing that
/// holds is reported.
pub proof fn law_reported_iff_broken(user: RegistrationData, found: Findings, error: FieldError)
    ensures
        registration_errors(user, found).contains(error) <==> is_reported(user, found, error),
{
    let shape_ok = found.email_shaped;
    let a = error_if(user.first_name.len() == 0, Field::FirstName, ErrorKind::Required);
    let b = error_if(user.last_name.len() == 0, Field::LastName, ErrorKind::Required);
    let c = email_errors(user.email, shape_ok);
    let d = password_errors(user.password, user.confirm_password, found.password);
    let e = confirmation_errors(user.password, user.confirm_password, found.confirm_password);
    lemma_concat_contains(a, b, error);
    lemma_concat_contains(a + b, c, error);
    lemma_concat_contains(a + b + c, d, error);
    lemma_concat_contains(a + b + c + d, e, error);
    lemma_error_if_contains(
        user.first_name.len() == 0,
        Field::FirstName,
        ErrorKind::Required,
        error,
    );
    lemma_error_if_contains(
        user.last_name.len() == 0,
        Field::LastName,
        ErrorKind::Required,
        error,
    );
    let c1 = error_if(!shape_ok, Field::Email, ErrorKind::EmailFormat);
    let c2 = error_if(user.email.len() == 0, Field::Email, ErrorKind::Required);
    lemma_concat_contains(c1, c2, error);
    lemma_error_if_contains(!shape_ok, Field::Email, ErrorKind::EmailFormat, error);
    lemma_error_if_contains(user.email.len() == 0, Field::Email, ErrorKind::Required, error);
    lemma_password_contains(user.password, user.confirm_password, found.password, error);
    lemma_confirmation_contains(
        user.password,
        user.confirm_password,
        found.confirm_password,
        error,
    );
}

/// A password that fails a composition rule has that rule's error among the
/// errors of the registration, and a password that meets the rule has not,
/// whatever the outside crates find in the texts.
pub proof fn law_failed_rule_is_reported(user: RegistrationData, found: Findings, rule: PasswordRule)
    ensures
        registration_errors(user, found).contains(
            FieldError { field: Field::Password, kind: ErrorKind::PasswordRule(rule) },
        ) <==> !rule_holds_given(rule, user.password, found.password),
{
    law_reported_iff_broken(
        user,
        found,
        FieldError { field: Field::Password, kind: ErrorKind::PasswordRule(rule) },
    );
}

/// The same of the validation as it is run, on what the outside crates do
/// find: the error of a rule is among the errors exactly where the password
/// fails the rule.
pub proof fn law_failed_rule_is_reported_by_validation(user: RegistrationData, rule: PasswordRule)
    ensures
        registration_errors(user, findings_of(user)).contains(
            FieldError { field: Field::Password, kind: ErrorKind::PasswordRule(rule) },
        ) <==> !rule_holds(rule, user.password),
{
    law_failed_rule_is_reported(user, findings_of(user), rule);
}

/// What the structural rules ask of a registration, all in one: every field
/// filled in, an email with the shape of an address, and a well composed
/// password that equals its confirmation.
pub open spec fn is_well_formed(user: RegistrationData, found: Findings) -> bool {
    &&& user.first_name.len() > 0
    &&& user.last_name.len() > 0
    &&& user.email.len() > 0
    &&& found.email_shaped
    &&& well_composed(user.password, found.password)
    &&& well_composed(user.confirm_password, found.confirm_password)
    &&& user.password == user.confirm_password
}

proof fn lemma_passing_is_well_formed(user: RegistrationData, found: Findings)
    requires
        registration_errors(user, found).len() == 0,
    ensures
        is_well_formed(user, found),
{
    let mismatch = FieldError { field: Field::Password, kind: ErrorKind::PasswordMismatch };
    law_reported_iff_broken(user, found, required(Field::FirstName));
    law_reported_iff_broken(user, found, required(Field::LastName));
    law_reported_iff_broken(user, found, required(Field::Email));
    law_reported_iff_broken(user, found, misshaped_email());
    law_reported_iff_broken(user, found, mismatch);
    assert forall|rule: PasswordRule| rule_holds_given(rule, user.password, found.password) by {
        law_reported_iff_broken(
            user,
            found,
            FieldError { field: Field::Password, kind: ErrorKind::PasswordRule(rule) },
        );
    }
    assert forall|rule: PasswordRule|
        rule_holds_given(rule, user.confirm_password, found.confirm_password) by {
        law_reported_iff_broken(
            user,
            found,
            FieldError { field: Field::ConfirmPassword, kind: ErrorKind::PasswordRule(rule) },
        );
    }
}

proof fn lemma_well_formed_passes(user: RegistrationData, found: Findings)
    requires
        is_well_formed(user, found),
    ensures
        registration_errors(user, found).len() == 0,
{
    let errors = registration_errors(user, found);
    if errors.len() > 0 {
        let error = errors[0];
        assert(errors.contains(error));
        law_reported_iff_broken(user, found, error);
        assert(rule_holds_given(PasswordRule::MinLength, user.password, found.password));
        match error.kind {
            ErrorKind::PasswordRule(rule) => {
                assert(rule_holds_given(rule, user.password, found.password));
                assert(rule_holds_given(rule, user.confirm_password, found.confirm_password));
            },
            _ => {},
        }
    }
}

/// A registration passes validation if and only if it is well formed.
pub proof fn law_passes_iff_well_formed(user: RegistrationData, found: Findings)
    ensures
        registration_errors(user, found).len() == 0 <==> is_well_formed(user, found),
{
    if registration_errors(user, found).len() == 0 {
        lemma_passing_is_well_formed(user, found);
    }
    if is_well_formed(user, found) {
        lemma_well_formed_passes(user, found);
    }
}

/// A login passes validation if and only if both fields are filled in and the
/// email has the shape of an address.
pub proof fn law_login_passes_iff_well_formed(login: LoginData, shape_ok: bool)
    ensures
        login_errors(login, shape_ok).len() == 0 <==> login.email.len() > 0 && shape_ok
            && login.password.len() > 0,
{
}

/// A digest that verifies against a password, as every digest does that the
/// hasher has given for it, is found to match when the password is held
/// against it.
pub proof fn law_hashed_password_is_accepted(password: Seq<char>, digest: Seq<char>)
    requires
        digest_verifies(password, digest),
    ensures
        verdict_outcome(verdict_of(password, digest)) == Ok::<bool, ErrorKind>(true),
{
}

/// The error that says that an email is taken.
pub open spec fn email_taken() -> FieldError {
    FieldError { field: Field::Email, kind: ErrorKind::EmailTaken }
}

/// A registration whose email the store holds already is rejected as soon as
/// the store has counted, with the error that the email is taken.
pub proof fn law_known_email_is_refused(
    store: StoreModel,
    user: RegistrationData,
    answer: Result<usize, StoreFailure>,
    after: RegistrationPhase,
)
    requires
        store.digests.dom().contains(user.email),
        store.counts(user.email, answer),
        answer is Ok,
        registration_step(
            RegistrationPhase::StructurallyValidated(user),
            RegistrationEvent::EmailCounted(answer),
            after,
        ),
    ensures
        after == RegistrationPhase::Rejected(seq![email_taken()]),
{
}

/// Of two records with one email that are handed to the store one after the
/// other, at most one is persisted. Where the first is, the second is rejected
/// with the error that the email is taken, though both had passed the count
/// before either was inserted.
pub proof fn law_at_most_one_registration_succeeds(
    store: StoreModel,
    first: NewUserData,
    second: NewUserData,
    first_outcome: Result<i32, InsertFailure>,
    between: StoreModel,
    second_outcome: Result<i32, InsertFailure>,
    last: StoreModel,
    first_after: RegistrationPhase,
    second_after: RegistrationPhase,
)
    requires
        first.email == second.email,
        store.inserts(first.email, first.password, first_outcome, between),
        between.inserts(second.email, second.password, second_outcome, last),
        registration_step(
            RegistrationPhase::PasswordHashed(first),
            RegistrationEvent::Inserted(first_outcome),
            first_after,
        ),
        registration_step(
            RegistrationPhase::PasswordHashed(second),
            RegistrationEvent::Inserted(second_outcome),
            second_after,
        ),
    ensures
        !(first_after is Persisted && second_after is Persisted),
        first_after is Persisted && second_outcome != Err::<i32, InsertFailure>(
            InsertFailure::Unavailable,
        ) ==> second_after == RegistrationPhase::Rejected(seq![email_taken()]),
{
}

/// A record that the store took is found again under its email, with the
/// digest that the registration derived.
pub proof fn law_persisted_record_is_found(
    store: StoreModel,
    record: NewUserData,
    outcome: Result<i32, InsertFailure>,
    after: StoreModel,
)
    requires
        store.inserts(record.email, record.password, outcome, after),
        outcome is Ok,
    ensures
        after.count(record.email) == 1,
        after.digests_of(record.email) == seq![record.password],
{
}

/// What a login leads to once the store has answered: with a known email and
/// the matching password it is authenticated; with a known email and another
/// password, with an unknown email, and with a store that gave no answer it is
/// rejected, each time with the same single error.
pub proof fn law_login_outcomes(
    store: StoreModel,
    login: LoginData,
    answer: Result<Seq<Seq<char>>, StoreFailure>,
)
    requires
        store.finds(login.email, answer),
    ensures
        login_step(LoginPhase::StructurallyValidated(login), LoginSignal::Found(answer)) == (
        if answer is Ok && store.digests.dom().contains(login.email) && digest_verifies(
            login.password,
            store.digests[login.email],
        ) {
            LoginPhase::Authenticated
        } else {
            LoginPhase::Rejected(seq![invalid_credentials()])
        }),
{
}

/// Who has registered can log in: once a registration has passed the hashing
/// and the store has taken its record, a login with the same email and the
/// same password is authenticated when the store answers.
pub proof fn law_registered_user_logs_in(
    store: StoreModel,
    user: RegistrationData,
    record: NewUserData,
    outcome: Result<i32, InsertFailure>,
    after: StoreModel,
    login: LoginData,
    answer: Result<Seq<Seq<char>>, StoreFailure>,
)
    requires
        registration_step(
            RegistrationPhase::EmailChecked(user),
            RegistrationEvent::Proceed,
            RegistrationPhase::PasswordHashed(record),
        ),
        store.inserts(record.email, record.password, outcome, after),
        outcome is Ok,
        login.email == user.email,
        login.password == user.password,
        after.finds(login.email, answer),
        answer is Ok,
    ensures
        login_step(LoginPhase::StructurallyValidated(login), LoginSignal::Found(answer))
            == LoginPhase::Authenticated,
{
    law_login_outcomes(after, login, answer);
}

/// Validation comes before the store: a login with any structural error is
/// rejected with exactly those errors at the first step, and a rejected login
/// asks for nothing more.
pub proof fn law_invalid_login_asks_no_store(login: LoginData, shape_ok: bool)
    requires
        shape_ok == email_shape(login.email),
        login_errors(login, shape_ok).len() > 0,
    ensures
        login_step(LoginPhase::Received(login), LoginSignal::Proceed) == LoginPhase::Rejected(
            login_errors(login, shape_ok),
        ),
        login_step(LoginPhase::Received(login), LoginSignal::Proceed).awaits()
            == LoginAction::Finish,
{
}

/// A login whose email has not the shape of an address is rejected at the
/// first step, with the error of the email's format among its errors.
pub proof fn law_misshaped_email_is_rejected(login: LoginData)
    requires
        !email_shape(login.email),
    ensures
        login_step(LoginPhase::Received(login), LoginSignal::Proceed) matches LoginPhase::Rejected(
            errors,
        ) && errors.contains(FieldError { field: Field::Email, kind: ErrorKind::EmailFormat }),
{
    let a = error_if(login.email.len() == 0, Field::Email, ErrorKind::Required);
    let b = error_if(true, Field::Email, ErrorKind::EmailFormat);
    let c = error_if(login.password.len() == 0, Field::Password, ErrorKind::Required);
    let wanted = FieldError { field: Field::Email, kind: ErrorKind::EmailFormat };
    assert(b[0] == wanted);
    lemma_concat_contains(a, b, wanted);
    lemma_concat_contains(a + b, c, wanted);
}

/// A registration with any structural error is rejected with exactly those
/// errors at the first step, before the store is asked; none of its fields is
/// accepted in part.
pub proof fn law_invalid_registration_asks_no_store(
    user: RegistrationData,
    after: RegistrationPhase,
)
    requires
        registration_errors(user, findings_of(user)).len() > 0,
        registration_step(RegistrationPhase::Received(user), RegistrationEvent::Proceed, after),
    ensures
        after == RegistrationPhase::Rejected(
            registration_errors(user, findings_of(user)),
        ),
        after.awaits() == RegistrationAction::Finish,
{
}

/// The store is asked to insert only what has passed every gate before: the
/// phase that awaits the insertion holds a record whose digest verifies
/// against the submitted password, and is reached from no phase but the one
/// after the count.
pub proof fn law_only_checked_records_are_inserted(
    before: RegistrationPhase,
    event: RegistrationEvent,
    after: RegistrationPhase,
)
    requires
        registration_step(before, event, after),
        after.awaits() == RegistrationAction::InsertUser,
        before.awaits() != RegistrationAction::InsertUser,
    ensures
        before matches RegistrationPhase::EmailChecked(user) && after
            matches RegistrationPhase::PasswordHashed(record) && record.email == user.email
            && digest_verifies(user.password, record.password),
{
}

/// A registration that is over stays as it is, whatever it is told.
pub proof fn law_finished_registration_stays(
    before: RegistrationPhase,
    event: RegistrationEvent,
    after: RegistrationPhase,
)
    requires
        before.is_final(),
        registration_step(before, event, after),
    ensures
        after == before,
{
}

/// A login that is over stays as it is, whatever it is told.
pub proof fn law_finished_login_stays(before: LoginPhase, event: LoginSignal)
    requires
        before.is_final(),
    ensures
        login_step(before, event) == before,
{
}

/// Giving up ends a registration that is not over, and the end is told apart
/// from a rejection.
pub proof fn law_cancel_ends_registration(before: RegistrationPhase, after: RegistrationPhase)
    requires
        !before.is_final(),
        registration_step(before, RegistrationEvent::Cancel, after),
    ensures
        after == RegistrationPhase::Cancelled,
        !(after is Rejected),
{
}

/// Giving up ends a login that is not over, and the end is told apart from a
/// rejection.
pub proof fn law_cancel_ends_login(before: LoginPhase)
    requires
        !before.is_final(),
    ensures
        login_step(before, LoginSignal::Cancel) == LoginPhase::Cancelled,
{
}

/// A run of the registration processor: each phase follows from the one
/// before by a step on the event at its place.
pub open spec fn is_registration_run(
    phases: Seq<RegistrationPhase>,
    events: Seq<RegistrationEvent>,
) -> bool {
    &&& phases.len() == events.len() + 1
    &&& forall|i: int|
        0 <= i < events.len() ==> registration_step(phases[i], #[trigger] events[i], phases[i + 1])
}

/// What a phase tells of the gates behind it, for the submission `user` and
/// the events `seen` so far: a phase past a gate is reached only through it.
pub open spec fn gates_passed(
    user: RegistrationData,
    phase: RegistrationPhase,
    seen: Seq<RegistrationEvent>,
) -> bool {
    let valid = registration_errors(user, findings_of(user)).len() == 0;
    let free = seen.contains(RegistrationEvent::EmailCounted(Ok(0)));
    match phase {
        RegistrationPhase::Received(held) => held == user,
        RegistrationPhase::StructurallyValidated(held) => held == user && valid,
        RegistrationPhase::EmailChecked(held) => held == user && valid && free,
        RegistrationPhase::PasswordHashed(record) => valid && free && record.first_name
            == user.first_name && record.last_name == user.last_name && record.email == user.email
            && digest_verifies(user.password, record.password),
        RegistrationPhase::Persisted(id) => valid && free && seen.contains(
            RegistrationEvent::Inserted(Ok(id)),
        ),
        RegistrationPhase::Rejected(_) => true,
        RegistrationPhase::Cancelled => true,
    }
}

proof fn lemma_seen_grows(events: Seq<RegistrationEvent>, i: int, event: RegistrationEvent)
    requires
        0 <= i < events.len(),
        events.take(i).contains(event) || events[i] == event,
    ensures
        events.take(i + 1).contains(event),
{
    let longer = events.take(i + 1);
    if events[i] == event {
        assert(longer[i] == event);
    } else {
        let j = choose|j: int| 0 <= j < events.take(i).len() && events.take(i)[j] == event;
        assert(longer[j] == event);
    }
}

proof fn lemma_gates_passed(
    user: RegistrationData,
    phases: Seq<RegistrationPhase>,
    events: Seq<RegistrationEvent>,
    i: int,
)
    requires
        is_registration_run(phases, events),
        phases[0] == RegistrationPhase::Received(user),
        0 <= i < phases.len(),
    ensures
        gates_passed(user, phases[i], events.take(i)),
    decreases i,
{
    if i > 0 {
        lemma_gates_passed(user, phases, events, i - 1);
        let before = phases[i - 1];
        let event = events[i - 1];
        let after = phases[i];
        let seen = events.take(i - 1);
        assert(registration_step(before, event, after));
        let free = RegistrationEvent::EmailCounted(Ok(0));
        if seen.contains(free) {
            lemma_seen_grows(events, i - 1, free);
        }
        match after {
            RegistrationPhase::EmailChecked(_) => {
                if !(before is EmailChecked) {
                    assert(event == free);
                    lemma_seen_grows(events, i - 1, free);
                }
            },
            RegistrationPhase::Persisted(id) => {
                let taken = RegistrationEvent::Inserted(Ok(id));
                if before is Persisted {
                    lemma_seen_grows(events, i - 1, taken);
                } else {
                    assert(event == taken);
                    lemma_seen_grows(events, i - 1, taken);
                }
            },
            _ => {},
        }
    }
}

/// No registration is accepted in part: one that ends persisted had no
/// structural error, was told by the store that its email was free, and was
/// taken by the store under the id it ends with.
pub proof fn law_persisted_passed_every_gate(
    user: RegistrationData,
    phases: Seq<RegistrationPhase>,
    events: Seq<RegistrationEvent>,
    id: i32,
)
    requires
        is_registration_run(phases, events),
        phases[0] == RegistrationPhase::Received(user),
        phases.last() == RegistrationPhase::Persisted(id),
    ensures
        registration_errors(user, findings_of(user)).len() == 0,
        events.contains(RegistrationEvent::EmailCounted(Ok(0))),
        events.contains(RegistrationEvent::Inserted(Ok(id))),
{
    lemma_gates_passed(user, phases, events, phases.len() - 1);
    assert(events.take(events.len() as int) == events);
}

/// Whatever is handed to the store in a run is the record of the submission
/// that the run began with: its names and email, and a digest that verifies
/// against its password.
pub proof fn law_inserted_record_is_the_submission(
    user: RegistrationData,
    phases: Seq<RegistrationPhase>,
    events: Seq<RegistrationEvent>,
    i: int,
    record: NewUserData,
)
    requires
        is_registration_run(phases, events),
        phases[0] == RegistrationPhase::Received(user),
        0 <= i < phases.len(),
        phases[i] == RegistrationPhase::PasswordHashed(record),
    ensures
        record.first_name == user.first_name,
        record.last_name == user.last_name,
        record.email == user.email,
        digest_verifies(user.password, record.password),
{
    lemma_gates_passed(user, phases, events, i);
}

/// A run of the login processor: each phase is the step from the one before
/// on the event at its place.
pub open spec fn is_login_run(phases: Seq<LoginPhase>, events: Seq<LoginSignal>) -> bool {
    &&& phases.len() == events.len() + 1
    &&& forall|i: int|
        0 <= i < events.len() ==> phases[i + 1] == login_step(phases[i], #[trigger] events[i])
}

/// What a phase of a login tells of the gates behind it.
pub open spec fn login_gates_passed(login: LoginData, phase: LoginPhase, seen: Seq<LoginSignal>) -> bool {
    let valid = login_errors(login, email_shape(login.email)).len() == 0;
    match phase {
        LoginPhase::Received(held) => held == login,
        LoginPhase::StructurallyValidated(held) => held == login && valid,
        LoginPhase::Authenticated => valid && exists|found: Result<Seq<Seq<char>>, StoreFailure>|
            #[trigger] seen.contains(LoginSignal::Found(found)) && login_accepted(
                login.password,
                found,
            ),
        LoginPhase::Rejected(_) => true,
        LoginPhase::Cancelled => true,
    }
}

proof fn lemma_login_gates_passed(
    login: LoginData,
    phases: Seq<LoginPhase>,
    events: Seq<LoginSignal>,
    i: int,
)
    requires
        is_login_run(phases, events),
        phases[0] == LoginPhase::Received(login),
        0 <= i < phases.len(),
    ensures
        login_gates_passed(login, phases[i], events.take(i)),
    decreases i,
{
    if i > 0 {
        lemma_login_gates_passed(login, phases, events, i - 1);
        let before = phases[i - 1];
        let event = events[i - 1];
        let seen = events.take(i - 1);
        let longer = events.take(i);
        assert(phases[i] == login_step(before, event));
        if phases[i] is Authenticated {
            if before is Authenticated {
                let found = choose|found: Result<Seq<Seq<char>>, StoreFailure>|
                    #[trigger] seen.contains(LoginSignal::Found(found)) && login_accepted(
                        login.password,
                        found,
                    );
                let j = choose|j: int|
                    0 <= j < seen.len() && seen[j] == LoginSignal::Found(found);
                assert(longer[j] == LoginSignal::Found(found));
                assert(longer.contains(LoginSignal::Found(found)));
            } else {
                let found = event->Found_0;
                assert(longer[i - 1] == LoginSignal::Found(found));
                assert(longer.contains(LoginSignal::Found(found)));
            }
        }
    }
}

/// No login is let in but through both gates: one that ends authenticated had
/// no structural error, and the store had answered with exactly one record
/// whose digest the password verifies against.
pub proof fn law_authenticated_passed_every_gate(
    login: LoginData,
    phases: Seq<LoginPhase>,
    events: Seq<LoginSignal>,
)
    requires
        is_login_run(phases, events),
        phases[0] == LoginPhase::Received(login),
        phases.last() == LoginPhase::Authenticated,
    ensures
        login_errors(login, email_shape(login.email)).len() == 0,
        exists|digest: Seq<char>|
            #![trigger digest_verifies(login.password, digest)]
            events.contains(LoginSignal::Found(Ok(seq![digest]))) && digest_verifies(
                login.password,
                digest,
            ),
{
    lemma_login_gates_passed(login, phases, events, phases.len() - 1);
    assert(events.take(events.len() as int) == events);
    let found = choose|found: Result<Seq<Seq<char>>, StoreFailure>|
        #[trigger] events.contains(LoginSignal::Found(found)) && login_accepted(
            login.password,
            found,
        );
    let digests = found->Ok_0;
    assert(digests =~= seq![digests[0]]);
    assert(digest_verifies(login.password, digests[0]));
}

} // verus!
