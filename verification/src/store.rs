//! What the user store answers, and the checks on how often an email occurs
//! in it. The store itself is asked elsewhere; here its answers are judged.
//!
//! An email is the key of a record as it is written: two emails that differ
//! only in the case of a letter are two emails.

use crate::errors::{ErrorKind, Field, FieldError};
use vstd::prelude::*;

verus! {

/// The store could not be asked, or did not answer.
#[derive(Clone, Copy, Debug, PartialEq, Eq, Structural)]
pub struct StoreFailure;

/// Why the store took no new record.
#[derive(Clone, Copy, Debug, PartialEq, Eq, Structural)]
pub enum InsertFailure {
    /// A record with the same email exists: the store keeps each email once.
    Conflict,
    /// The store could not be asked, or did not answer.
    Unavailable,
}

/// Why a count is not the wanted one.
#[derive(Clone, Copy, Debug, PartialEq, Eq, Structural)]
pub enum CountFault {
    /// The store gave no count.
    Unavailable,
    /// The store gave another count.
    Differs,
}

/// A count as the store gave it, held against the wanted one.
pub open spec fn count_check(found: Result<usize, StoreFailure>, count: usize) -> Result<
    (),
    CountFault,
> {
    match found {
        Ok(n) => if n == count {
            Ok(())
        } else {
            Err(CountFault::Differs)
        },
        Err(_) => Err(CountFault::Unavailable),
    }
}

/// Holds the number of records with an email, as the store gave it, against
/// the wanted number.
pub fn email_count(found: Result<usize, StoreFailure>, count: usize) -> (checked: Result<
    (),
    CountFault,
>)
    ensures
        checked == count_check(found, count),
{
    match found {
        Ok(n) => if n == count {
            Ok(())
        } else {
            Err(CountFault::Differs)
        },
        Err(_) => Err(CountFault::Unavailable),
    }
}

/// The email of a registration must occur in no record. Any record with it
/// means that the email is taken; a store that gave no count is reported as
/// such, never read as "free".
pub open spec fn email_is_free(found: Result<usize, StoreFailure>) -> Result<(), FieldError> {
    match count_check(found, 0) {
        Ok(()) => Ok(()),
        Err(CountFault::Differs) => Err(
            FieldError { field: Field::Email, kind: ErrorKind::EmailTaken },
        ),
        Err(CountFault::Unavailable) => Err(
            FieldError { field: Field::All, kind: ErrorKind::StoreUnavailable },
        ),
    }
}

/// Judges the count of records with the email of a registration.
pub fn custom_registration_email_validator(found: Result<usize, StoreFailure>) -> (checked: Result<
    (),
    FieldError,
>)
    ensures
        checked == email_is_free(found),
{
    match email_count(found, 0) {
        Ok(()) => Ok(()),
        Err(CountFault::Differs) => Err(
            FieldError { field: Field::Email, kind: ErrorKind::EmailTaken },
        ),
        Err(CountFault::Unavailable) => Err(
            FieldError { field: Field::All, kind: ErrorKind::StoreUnavailable },
        ),
    }
}

/// What an insertion's outcome means for a registration: the new record's id,
/// or the error. A conflict says that the email was taken in the meantime.
pub open spec fn insertion_result(outcome: Result<i32, InsertFailure>) -> Result<i32, FieldError> {
    match outcome {
        Ok(id) => Ok(id),
        Err(InsertFailure::Conflict) => Err(
            FieldError { field: Field::Email, kind: ErrorKind::EmailTaken },
        ),
        Err(InsertFailure::Unavailable) => Err(
            FieldError { field: Field::All, kind: ErrorKind::StoreUnavailable },
        ),
    }
}

/// Judges the outcome of handing a new record to the store.
pub fn create_user(outcome: Result<i32, InsertFailure>) -> (created: Result<i32, FieldError>)
    ensures
        created == insertion_result(outcome),
{
    match outcome {
        Ok(id) => Ok(id),
        Err(InsertFailure::Conflict) => Err(
            FieldError { field: Field::Email, kind: ErrorKind::EmailTaken },
        ),
        Err(InsertFailure::Unavailable) => Err(
            FieldError { field: Field::All, kind: ErrorKind::StoreUnavailable },
        ),
    }
}

/// What the processors take for granted of the user store, as a model: the
/// store holds at most one record for an email, here the record's digest, and
/// finds a record by the exact text of its email. Any request may fail; one
/// that is answered is answered truly.
pub struct StoreModel {
    pub digests: Map<Seq<char>, Seq<char>>,
}

impl StoreModel {
    /// The number of records with `email`.
    pub open spec fn count(self, email: Seq<char>) -> usize {
        if self.digests.dom().contains(email) {
            1
        } else {
            0
        }
    }

    /// The digests of the records with `email`.
    pub open spec fn digests_of(self, email: Seq<char>) -> Seq<Seq<char>> {
        if self.digests.dom().contains(email) {
            seq![self.digests[email]]
        } else {
            Seq::empty()
        }
    }

    /// Whether `answer` is one that the store may give when asked to count the
    /// records with `email`.
    pub open spec fn counts(self, email: Seq<char>, answer: Result<usize, StoreFailure>) -> bool {
        answer is Err || answer == Ok::<usize, StoreFailure>(self.count(email))
    }

    /// Whether `answer` is one that the store may give when asked for the
    /// digests of the records with `email`.
    pub open spec fn finds(
        self,
        email: Seq<char>,
        answer: Result<Seq<Seq<char>>, StoreFailure>,
    ) -> bool {
        answer is Err || answer == Ok::<Seq<Seq<char>>, StoreFailure>(self.digests_of(email))
    }

    /// Whether the store, handed a record with `email` and `digest`, may give
    /// `outcome` and be `after` from then on. It takes the record only where it
    /// holds none with that email, and refuses it as a conflict where it does.
    pub open spec fn inserts(
        self,
        email: Seq<char>,
        digest: Seq<char>,
        outcome: Result<i32, InsertFailure>,
        after: StoreModel,
    ) -> bool {
        match outcome {
            Ok(_) => !self.digests.dom().contains(email) && after.digests == self.digests.insert(
                email,
                digest,
            ),
            Err(InsertFailure::Conflict) => self.digests.dom().contains(email) && after == self,
            Err(InsertFailure::Unavailable) => after == self,
        }
    }
}

} // verus!
