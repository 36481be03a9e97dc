use web_app::errors::{ErrorKind, Field, FieldError};
use web_app::store::{
    create_user, custom_registration_email_validator, email_count, CountFault, InsertFailure,
    StoreFailure,
};

#[test]
fn a_count_is_held_against_the_wanted_one() {
    assert_eq!(email_count(Ok(0), 0), Ok(()));
    assert_eq!(email_count(Ok(1), 1), Ok(()));
    assert_eq!(email_count(Ok(1), 0), Err(CountFault::Differs));
    assert_eq!(email_count(Ok(2), 0), Err(CountFault::Differs));
    assert_eq!(email_count(Ok(0), 1), Err(CountFault::Differs));
    assert_eq!(email_count(Ok(2), 1), Err(CountFault::Differs));
    assert_eq!(email_count(Err(StoreFailure), 0), Err(CountFault::Unavailable));
    assert_eq!(email_count(Err(StoreFailure), 1), Err(CountFault::Unavailable));
}

#[test]
fn an_email_is_free_only_where_no_record_has_it() {
    let taken = FieldError { field: Field::Email, kind: ErrorKind::EmailTaken };
    assert_eq!(custom_registration_email_validator(Ok(0)), Ok(()));
    assert_eq!(custom_registration_email_validator(Ok(1)), Err(taken));
    assert_eq!(custom_registration_email_validator(Ok(2)), Err(taken));
    assert_eq!(custom_registration_email_validator(Ok(usize::MAX)), Err(taken));
}

#[test]
fn a_silent_store_is_not_read_as_a_free_email() {
    assert_eq!(
        custom_registration_email_validator(Err(StoreFailure)),
        Err(FieldError { field: Field::All, kind: ErrorKind::StoreUnavailable })
    );
}

#[test]
fn an_insertion_gives_the_id_or_the_error() {
    assert_eq!(create_user(Ok(7)), Ok(7));
    assert_eq!(create_user(Ok(-1)), Ok(-1));
    assert_eq!(
        create_user(Err(InsertFailure::Conflict)),
        Err(FieldError { field: Field::Email, kind: ErrorKind::EmailTaken })
    );
    assert_eq!(
        create_user(Err(InsertFailure::Unavailable)),
        Err(FieldError { field: Field::All, kind: ErrorKind::StoreUnavailable })
    );
}
