//! What each route answers. A caller that is signed in already is sent home
//! without its submission being looked at; any other submission goes through
//! its processor, and the reply follows from how that ended.

use crate::errors::FieldError;
use crate::login::{LoginPhase, LoginState};
use crate::models::{UserLogin, UserRegistration};
use crate::registration::{RegistrationPhase, RegistrationState};
use crate::responses::{plain_reply, response, Body, BodyData, Reply, ReplyData, JSON};
use vstd::prelude::*;
use vstd::string::StringExecFns;

verus! {

/// The reply that sends the caller on to `location`: status 303, data as the
/// content type, and the target in the `Location` header.
pub open spec fn see_other_reply(location: Seq<char>, body: BodyData) -> ReplyData {
    ReplyData { location: Some(location), ..plain_reply(303, JSON@, body) }
}

/// The reply to a submission that was turned down: status 400 and its errors.
pub open spec fn rejected_reply(errors: Seq<FieldError>) -> ReplyData {
    plain_reply(400, JSON@, BodyData::Errors(errors))
}

/// The reply that ends a session: status 302 to the login page, nothing else.
pub open spec fn logout_reply() -> ReplyData {
    ReplyData {
        status: 302,
        content_type: None,
        location: Some("/login"@),
        body: BodyData::Empty,
    }
}

/// The reply to a login that is over, if one is owed: a login that was given
/// up gets none, nor does one that is not over.
pub open spec fn login_reply_for(phase: LoginPhase) -> Option<ReplyData> {
    match phase {
        LoginPhase::Authenticated => Some(
            see_other_reply("/home"@, BodyData::Message("User Logged In Successfully"@)),
        ),
        LoginPhase::Rejected(errors) => Some(rejected_reply(errors)),
        _ => None,
    }
}

/// The reply to a registration that is over, if one is owed.
pub open spec fn register_reply_for(phase: RegistrationPhase) -> Option<ReplyData> {
    match phase {
        RegistrationPhase::Persisted(_) => Some(
            see_other_reply("/home"@, BodyData::Message("User Registered Successfully"@)),
        ),
        RegistrationPhase::Rejected(errors) => Some(rejected_reply(errors)),
        _ => None,
    }
}

/// The reply's view, if there is a reply.
pub open spec fn reply_of(reply: Option<Reply>) -> Option<ReplyData> {
    match reply {
        Some(reply) => Some(reply@),
        None => None,
    }
}

/// Sends the caller on to `location`.
pub fn see_other(location: &str, body: Body) -> (reply: Reply)
    ensures
        reply@ == see_other_reply(location@, body@),
{
    let mut reply = response(303, JSON, body);
    reply.location = Some(String::from_str(location));
    reply
}

/// Takes a login in: a caller that is signed in is sent home at once, and for
/// any other the login processor starts on the submission.
pub fn login_post(signed_in: bool, login: UserLogin) -> (started: Result<LoginState, Reply>)
    ensures
        match started {
            Ok(state) => !signed_in && state@ == LoginPhase::Received(login@),
            Err(reply) => signed_in && reply@ == see_other_reply("/home"@, BodyData::Empty),
        },
{
    if signed_in {
        Err(see_other("/home", Body::Empty))
    } else {
        Ok(LoginState::new(login))
    }
}

/// The reply to a login that is over.
pub fn login_reply(state: LoginState) -> (reply: Option<Reply>)
    ensures
        reply_of(reply) == login_reply_for(state@),
{
    match state {
        LoginState::Authenticated => Some(
            see_other("/home", Body::Message(String::from_str("User Logged In Successfully"))),
        ),
        LoginState::Rejected(errors) => Some(response(400, JSON, Body::Errors(errors))),
        _ => None,
    }
}

/// Takes a registration in: a caller that is signed in is sent home at once,
/// and for any other the registration processor starts on the submission.
pub fn register_post(signed_in: bool, user: UserRegistration) -> (started: Result<
    RegistrationState,
    Reply,
>)
    ensures
        match started {
            Ok(state) => !signed_in && state@ == RegistrationPhase::Received(user@),
            Err(reply) => signed_in && reply@ == see_other_reply("/home"@, BodyData::Empty),
        },
{
    if signed_in {
        Err(see_other("/home", Body::Empty))
    } else {
        Ok(RegistrationState::new(user))
    }
}

/// The reply to a registration that is over. It tells the new record's id to
/// nobody, and the digest was dropped before.
pub fn register_reply(state: RegistrationState) -> (reply: Option<Reply>)
    ensures
        reply_of(reply) == register_reply_for(state@),
{
    match state {
        RegistrationState::Persisted(_) => Some(
            see_other("/home", Body::Message(String::from_str("User Registered Successfully"))),
        ),
        RegistrationState::Rejected(errors) => Some(response(400, JSON, Body::Errors(errors))),
        _ => None,
    }
}

/// The home page is for callers that are signed in: any other is sent to the
/// login page, and `None` says that the page is to be shown.
pub fn home_get(signed_in: bool) -> (reply: Option<Reply>)
    ensures
        reply_of(reply) == if signed_in {
            None
        } else {
            Some(see_other_reply("/login"@, BodyData::Empty))
        },
{
    if signed_in {
        None
    } else {
        Some(see_other("/login", Body::Empty))
    }
}

/// The reply that ends a session.
pub fn logout() -> (reply: Reply)
    ensures
        reply@ == logout_reply(),
{
    Reply {
        status: 302,
        content_type: None,
        location: Some(String::from_str("/login")),
        body: Body::Empty,
    }
}

} // verus!
