use web_app::errors::{ErrorKind, Field, FieldError};
use web_app::hasher::password_hasher;
use web_app::login::{
    custom_login_password_validator, custom_login_validator, judge_credentials, LoginAction,
    LoginEvent, LoginState,
};
use web_app::messages::{code, field_name, message, FormKind};
use web_app::models::UserLogin;
use web_app::responses::Body;
use web_app::routes::{login_post, login_reply};
use web_app::store::StoreFailure;

const INVALID: FieldError = FieldError { field: Field::All, kind: ErrorKind::InvalidCredentials };

fn login(email: &str, password: &str) -> UserLogin {
    UserLogin { email: String::from(email), password: String::from(password) }
}

/// The digests of the records with `email`, in a store whose one record is
/// that of frodo@theshire.com with the password Password1!.
fn find_digests(email: &str) -> Vec<String> {
    if email == "frodo@theshire.com" {
        vec![password_hasher("Password1!").unwrap()]
    } else {
        vec![]
    }
}

/// Sends a login through its route, the store answering as `find_digests`, and
/// gives the state in which it ended and the number of times the store was
/// asked.
fn post_login(email: &str, password: &str) -> (LoginState, usize) {
    let mut state = login_post(false, login(email, password)).unwrap();
    let mut lookups = 0;
    loop {
        let event = match (state.awaits(), &state) {
            (LoginAction::Finish, _) => return (state, lookups),
            (LoginAction::Step, _) => LoginEvent::Proceed,
            (LoginAction::FindDigests, LoginState::StructurallyValidated(login)) => {
                lookups += 1;
                LoginEvent::Found(Ok(find_digests(&login.email)))
            }
            _ => unreachable!(),
        };
        state = state.advance(event);
    }
}

fn status_of(email: &str, password: &str) -> u16 {
    login_reply(post_login(email, password).0).unwrap().status
}

fn errors_of(email: &str, password: &str) -> Vec<(String, String, Option<String>)> {
    match login_reply(post_login(email, password).0).unwrap().body {
        Body::Errors(errors) => (0..errors.len())
            .map(|i| errors.get(i).unwrap())
            .map(|e| (field_name(e.field), code(e.kind), message(FormKind::Login, e)))
            .collect(),
        other => panic!("no errors: {:?}", other),
    }
}

#[test]
fn correct_login() {
    assert_eq!(status_of("frodo@theshire.com", "Password1!"), 303);
}

#[test]
fn incorrect_and_valid_password_login() {
    assert_eq!(status_of("frodo@theshire.com", "Password12!"), 400);
}

#[test]
fn incorrect_and_valid_email_login() {
    assert_eq!(status_of("frodo@theshire", "Password1!"), 400);
}

#[test]
fn invalid_email_login() {
    assert_eq!(status_of("frodo", "Password1!"), 400);
}

#[test]
fn invalid_login_email_response_body() {
    assert_eq!(
        errors_of("frodo", "Password1!"),
        vec![(String::from("email"), String::from("email"), None)]
    );
}

#[test]
fn invalid_login_password_response_body() {
    assert_eq!(
        errors_of("frodo@theshire.com", "Password1"),
        vec![(
            String::from("__all__"),
            String::from("invalid"),
            Some(String::from("Invalid Credentials"))
        )]
    );
}

#[test]
fn an_invalid_login_is_rejected_before_any_lookup() {
    let (state, lookups) = post_login("frodo", "x");
    assert_eq!(lookups, 0);
    match state {
        LoginState::Rejected(errors) => {
            assert_eq!(errors.len(), 1);
            assert!(errors.contains(Field::Email, ErrorKind::EmailFormat));
        }
        _ => panic!("not rejected"),
    }
    let first = LoginState::new(login("frodo", "x")).advance(LoginEvent::Proceed);
    assert!(first.is_final());
    assert_eq!(first.awaits(), LoginAction::Finish);
}

#[test]
fn a_valid_login_asks_the_store_once() {
    assert!(post_login("frodo@theshire.com", "Password1!") == (LoginState::Authenticated, 1));
    assert!(post_login("sam@theshire.com", "Password1!").1 == 1);
}

#[test]
fn unknown_email_and_wrong_password_look_the_same() {
    let (wrong_password, _) = post_login("frodo@theshire.com", "Password12!");
    let (unknown_email, _) = post_login("sam@theshire.com", "Password1!");
    assert!(wrong_password == unknown_email);
    assert_eq!(login_reply(wrong_password), login_reply(unknown_email));
}

#[test]
fn every_failure_after_validation_is_invalid_credentials() {
    let validated =
        || LoginState::new(login("frodo@theshire.com", "Password1!")).advance(LoginEvent::Proceed);
    let digest = password_hasher("Password1!").unwrap();
    let other = password_hasher("Password12!").unwrap();
    let answers = [
        Ok(vec![]),
        Ok(vec![other.clone()]),
        Ok(vec![digest.clone(), digest.clone()]),
        Ok(vec![String::from("not a digest")]),
        Ok(vec![String::new()]),
        Err(StoreFailure),
    ];
    for answer in answers {
        match validated().advance(LoginEvent::Found(answer.clone())) {
            LoginState::Rejected(errors) => {
                assert_eq!(errors.len(), 1, "{:?}", answer);
                assert_eq!(errors.get(0), Some(INVALID));
            }
            _ => panic!("not rejected on {:?}", answer),
        }
    }
    assert!(validated().advance(LoginEvent::Found(Ok(vec![digest]))) == LoginState::Authenticated);
}

#[test]
fn the_verdict_and_the_count_decide() {
    assert_eq!(judge_credentials(Ok(1), Some(Ok(true))), Ok(()));
    assert_eq!(judge_credentials(Ok(1), Some(Ok(false))), Err(INVALID));
    assert_eq!(judge_credentials(Ok(1), Some(Err(ErrorKind::Hashing))), Err(INVALID));
    assert_eq!(judge_credentials(Ok(1), None), Err(INVALID));
    assert_eq!(judge_credentials(Ok(0), None), Err(INVALID));
    assert_eq!(judge_credentials(Ok(0), Some(Ok(true))), Err(INVALID));
    assert_eq!(judge_credentials(Ok(2), Some(Ok(true))), Err(INVALID));
    assert_eq!(judge_credentials(Err(StoreFailure), Some(Ok(true))), Err(INVALID));
    assert_eq!(judge_credentials(Err(StoreFailure), None), Err(INVALID));
}

#[test]
fn the_password_is_held_against_the_first_digest() {
    let digest = password_hasher("Password1!").unwrap();
    let other = password_hasher("Password12!").unwrap();
    assert_eq!(custom_login_password_validator("Password1!", &Ok(vec![digest.clone()])), Some(Ok(true)));
    assert_eq!(
        custom_login_password_validator("Password1!", &Ok(vec![other.clone(), digest.clone()])),
        Some(Ok(false))
    );
    assert_eq!(
        custom_login_password_validator("Password1!", &Ok(vec![String::from("x")])),
        Some(Err(ErrorKind::Hashing))
    );
    assert_eq!(custom_login_password_validator("Password1!", &Ok(vec![])), None);
    assert_eq!(custom_login_password_validator("Password1!", &Err(StoreFailure)), None);
    let frodo = login("frodo@theshire.com", "Password1!");
    assert_eq!(custom_login_validator(&frodo, &Ok(vec![digest.clone()])), Ok(()));
    assert_eq!(custom_login_validator(&frodo, &Ok(vec![other])), Err(INVALID));
    assert_eq!(custom_login_validator(&frodo, &Ok(vec![digest.clone(), digest])), Err(INVALID));
    assert_eq!(custom_login_validator(&frodo, &Ok(vec![])), Err(INVALID));
    assert_eq!(custom_login_validator(&frodo, &Err(StoreFailure)), Err(INVALID));
}

#[test]
fn cancelling_ends_a_login_that_is_not_over() {
    let received = LoginState::new(login("frodo@theshire.com", "Password1!"));
    assert!(received.advance(LoginEvent::Cancel) == LoginState::Cancelled);
    let validated =
        LoginState::new(login("frodo@theshire.com", "Password1!")).advance(LoginEvent::Proceed);
    let cancelled = validated.advance(LoginEvent::Cancel);
    assert!(cancelled == LoginState::Cancelled);
    assert!(cancelled.is_final());
    assert_eq!(login_reply(cancelled), None);
}

#[test]
fn a_finished_login_stays_as_it_is() {
    let events = || [LoginEvent::Proceed, LoginEvent::Found(Ok(vec![])), LoginEvent::Cancel];
    for event in events() {
        assert!(LoginState::Authenticated.advance(event) == LoginState::Authenticated);
    }
    for event in events() {
        assert!(LoginState::Cancelled.advance(event) == LoginState::Cancelled);
    }
    for event in events() {
        let rejected = LoginState::new(login("frodo", "x")).advance(LoginEvent::Proceed);
        let same = LoginState::new(login("frodo", "x")).advance(LoginEvent::Proceed);
        assert!(rejected.advance(event) == same);
    }
}

#[test]
fn a_login_event_that_was_not_awaited_changes_nothing() {
    let frodo = login("frodo@theshire.com", "Password1!");
    assert!(LoginState::Received(frodo.clone()).advance(LoginEvent::Found(Ok(vec![]))) == LoginState::Received(frodo.clone()));
    assert!(LoginState::StructurallyValidated(frodo.clone()).advance(LoginEvent::Proceed) == LoginState::StructurallyValidated(frodo));
}
