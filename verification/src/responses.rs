//! Replies as plain values: a status, a content type, a target where the
//! caller is sent on, and a body. Turning them into bytes on a connection is
//! left to the server around the library.

use crate::errors::{FieldError, ValidationErrors};
use crate::messages::text_of;
use vstd::prelude::*;
use vstd::string::StringExecFns;

verus! {

/// The content type of the replies that carry data.
pub const JSON: &'static str = "application/json";

/// The content type of the replies that carry a page.
pub const HTML: &'static str = "text/html";

/// What a reply carries.
#[derive(Debug, PartialEq, Eq)]
pub enum Body {
    /// Nothing.
    Empty,
    /// A text, sent as it is.
    Text(String),
    /// An object with the one member `message`.
    Message(String),
    /// The errors of a submission, listed by field.
    Errors(ValidationErrors),
}

/// A reply.
#[derive(Debug, PartialEq, Eq)]
pub struct Reply {
    pub status: u16,
    pub content_type: Option<String>,
    pub location: Option<String>,
    pub body: Body,
}

/// The texts of a `Body`.
pub enum BodyData {
    Empty,
    Text(Seq<char>),
    Message(Seq<char>),
    Errors(Seq<FieldError>),
}

/// The texts of a `Reply`.
pub struct ReplyData {
    pub status: u16,
    pub content_type: Option<Seq<char>>,
    pub location: Option<Seq<char>>,
    pub body: BodyData,
}

impl View for Body {
    type V = BodyData;

    open spec fn view(&self) -> BodyData {
        match self {
            Body::Empty => BodyData::Empty,
            Body::Text(text) => BodyData::Text(text@),
            Body::Message(text) => BodyData::Message(text@),
            Body::Errors(errors) => BodyData::Errors(errors@),
        }
    }
}

impl View for Reply {
    type V = ReplyData;

    open spec fn view(&self) -> ReplyData {
        ReplyData {
            status: self.status,
            content_type: text_of(self.content_type),
            location: text_of(self.location),
            body: self.body@,
        }
    }
}

/// Whether a number can be the status of a reply.
pub open spec fn is_status(code: u16) -> bool {
    100 <= code < 1000
}

/// The reply with the given status, content type and body, the content type
/// marked as UTF-8, and no target.
pub open spec fn plain_reply(status: u16, content_type: Seq<char>, body: BodyData) -> ReplyData {
    ReplyData {
        status,
        content_type: Some(content_type + "; charset=utf-8"@),
        location: None,
        body,
    }
}

/// The reply to a request whose method the path does not take.
pub open spec fn not_allowed_reply() -> ReplyData {
    plain_reply(405, HTML@, BodyData::Text("<h1>405 Not Allowed</h1>"@))
}

/// The reply to a request for a path that does not exist.
pub open spec fn not_found_reply() -> ReplyData {
    plain_reply(404, HTML@, BodyData::Text("<h1>404</h1><p>Page Not Found</p>"@))
}

/// Builds a reply. The content type is marked as UTF-8.
pub fn response(http_status_code: u16, content_type: &str, body: Body) -> (reply: Reply)
    requires
        is_status(http_status_code),
    ensures
        reply@ == plain_reply(http_status_code, content_type@, body@),
{
    Reply {
        status: http_status_code,
        content_type: Some(String::from_str(content_type).concat("; charset=utf-8")),
        location: None,
        body,
    }
}

/// The reply to a request whose method the path does not take.
pub fn not_allowed() -> (reply: Reply)
    ensures
        reply@ == not_allowed_reply(),
{
    response(405, HTML, Body::Text(String::from_str("<h1>405 Not Allowed</h1>")))
}

/// The reply to a request for a path that does not exist.
pub fn not_found() -> (reply: Reply)
    ensures
        reply@ == not_found_reply(),
{
    response(404, HTML, Body::Text(String::from_str("<h1>404</h1><p>Page Not Found</p>")))
}

} // verus!
