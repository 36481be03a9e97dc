//! The errors a submission can meet, and the ordered list a validation returns.

use crate::rules::PasswordRule;
use vstd::prelude::*;

verus! {

/// What an error is attached to: one field of a submission, or the submission
/// as a whole.
#[derive(Clone, Copy, Debug, PartialEq, Eq, Structural)]
pub enum Field {
    FirstName,
    LastName,
    Email,
    Password,
    ConfirmPassword,
    /// The whole submission.
    All,
}

/// Why a submission was turned down.
#[derive(Clone, Copy, Debug, PartialEq, Eq, Structural)]
pub enum ErrorKind {
    /// A field was left empty.
    Required,
    /// The email does not have the shape of an address.
    EmailFormat,
    /// The password fails one composition rule.
    PasswordRule(PasswordRule),
    /// The password and its confirmation differ.
    PasswordMismatch,
    /// A record with this email exists already.
    EmailTaken,
    /// The email is unknown or the password is wrong; which of the two is not told.
    InvalidCredentials,
    /// The user store could not be asked.
    StoreUnavailable,
    /// No digest could be derived, or a stored digest could not be read.
    Hashing,
}

/// One error, with what it is attached to.
#[derive(Clone, Copy, Debug, PartialEq, Eq, Structural)]
pub struct FieldError {
    pub field: Field,
    pub kind: ErrorKind,
}

/// The errors of `entries` that are attached to `field`, in their order.
pub open spec fn errors_of(entries: Seq<FieldError>, field: Field) -> Seq<ErrorKind>
    decreases entries.len(),
{
    if entries.len() == 0 {
        Seq::empty()
    } else if entries.last().field == field {
        errors_of(entries.drop_last(), field).push(entries.last().kind)
    } else {
        errors_of(entries.drop_last(), field)
    }
}

/// An ordered list of errors, read as a mapping from each field to its errors.
/// A submission with any entry is rejected as a whole.
#[derive(Clone, Debug, PartialEq, Eq)]
pub struct ValidationErrors {
    entries: Vec<FieldError>,
}

impl View for ValidationErrors {
    type V = Seq<FieldError>;

    closed spec fn view(&self) -> Seq<FieldError> {
        self.entries@
    }
}

impl ValidationErrors {
    /// No error.
    pub fn new() -> (errors: ValidationErrors)
        ensures
            errors@ == Seq::<FieldError>::empty(),
    {
        ValidationErrors { entries: Vec::new() }
    }

    /// A list with one error.
    pub fn single(error: FieldError) -> (errors: ValidationErrors)
        ensures
            errors@ == seq![error],
    {
        let mut entries = Vec::new();
        entries.push(error);
        ValidationErrors { entries }
    }

    /// Appends one error.
    pub fn add(&mut self, field: Field, kind: ErrorKind)
        ensures
            final(self)@ == old(self)@.push(FieldError { field, kind }),
    {
        self.entries.push(FieldError { field, kind });
    }

    /// Appends one error where `failed` holds, and nothing otherwise.
    pub fn add_if(&mut self, failed: bool, field: Field, kind: ErrorKind)
        ensures
            final(self)@ == old(self)@ + error_if(failed, field, kind),
    {
        if failed {
            self.entries.push(FieldError { field, kind });
        }
    }

    pub fn len(&self) -> (n: usize)
        ensures
            n == self@.len(),
    {
        self.entries.len()
    }

    pub fn is_empty(&self) -> (empty: bool)
        ensures
            empty == (self@.len() == 0),
    {
        self.entries.len() == 0
    }

    /// The error at place `i`.
    pub fn get(&self, i: usize) -> (error: Option<FieldError>)
        ensures
            error == if i < self@.len() {
                Some(self@[i as int])
            } else {
                None
            },
    {
        if i < self.entries.len() {
            Some(self.entries[i])
        } else {
            None
        }
    }

    /// Whether `kind` is among the errors attached to `field`.
    pub fn contains(&self, field: Field, kind: ErrorKind) -> (found: bool)
        ensures
            found == self@.contains(FieldError { field, kind }),
    {
        let wanted = FieldError { field, kind };
        let mut i: usize = 0;
        while i < self.entries.len()
            invariant
                i <= self.entries@.len(),
                wanted == (FieldError { field, kind }),
                forall|j: int| 0 <= j < i ==> self.entries@[j] != wanted,
            decreases self.entries@.len() - i,
        {
            if self.entries[i] == wanted {
                assert(self@[i as int] == FieldError { field, kind });
                return true;
            }
            i += 1;
        }
        false
    }

    /// The errors attached to `field`, in their order.
    pub fn field_errors(&self, field: Field) -> (kinds: Vec<ErrorKind>)
        ensures
            kinds@ == errors_of(self@, field),
    {
        let mut kinds: Vec<ErrorKind> = Vec::new();
        let mut i: usize = 0;
        while i < self.entries.len()
            invariant
                i <= self.entries@.len(),
                kinds@ == errors_of(self.entries@.take(i as int), field),
            decreases self.entries@.len() - i,
        {
            assert(self.entries@.take(i + 1).drop_last() == self.entries@.take(i as int));
            if self.entries[i].field == field {
                kinds.push(self.entries[i].kind);
            }
            i += 1;
        }
        assert(self.entries@.take(self.entries@.len() as int) == self.entries@);
        kinds
    }
}

/// The list with the one error where `failed` holds, and the empty list otherwise.
pub open spec fn error_if(failed: bool, field: Field, kind: ErrorKind) -> Seq<FieldError> {
    if failed {
        seq![FieldError { field, kind }]
    } else {
        Seq::empty()
    }
}

/// An error is in a list made of two exactly where it is in one of them.
pub proof fn lemma_concat_contains(front: Seq<FieldError>, back: Seq<FieldError>, error: FieldError)
    ensures
        (front + back).contains(error) <==> front.contains(error) || back.contains(error),
{
    let whole = front + back;
    if front.contains(error) {
        let i = choose|i: int| 0 <= i < front.len() && front[i] == error;
        assert(whole[i] == error);
    }
    if back.contains(error) {
        let i = choose|i: int| 0 <= i < back.len() && back[i] == error;
        assert(whole[front.len() + i] == error);
    }
    if whole.contains(error) {
        let i = choose|i: int| 0 <= i < whole.len() && whole[i] == error;
        if i < front.len() {
            assert(front[i] == error);
        } else {
            assert(back[i - front.len()] == error);
        }
    }
}

/// The list of one possible error holds that error where it was raised, and
/// nothing else.
pub proof fn lemma_error_if_contains(failed: bool, field: Field, kind: ErrorKind, error: FieldError)
    ensures
        error_if(failed, field, kind).contains(error) <==> failed && error == (FieldError {
            field,
            kind,
        }),
{
    let list = error_if(failed, field, kind);
    if failed {
        assert(list[0] == FieldError { field, kind });
    }
}

} // verus!
