//! The replies that the gateway gives.

use vstd::prelude::*;
use vstd::utf8::encode_utf8;
use crate::body::AuthBody;

verus! {

/// The text of every refusal.
pub const UNAUTHORIZED_TEXT: &'static str = "Unauthorized";

/// The text that greets the bearer of a valid token.
pub const GREETING_TEXT: &'static str = "Hello, authenticated user!";

/// The content type under which a token is sent.
pub const TOKEN_CONTENT_TYPE: &'static str = "application/json";

/// The status of a reply.
#[derive(Debug, Clone, Copy, PartialEq, Eq, Structural)]
pub enum Status {
    /// `200 OK`.
    Success,
    /// `401 Unauthorized`.
    Unauthorized,
}

impl Status {
    /// The status code on the wire.
    pub open spec fn code_value(self) -> u16 {
        match self {
            Status::Success => 200,
            Status::Unauthorized => 401,
        }
    }

    /// The status code on the wire.
    pub fn code(&self) -> (code: u16)
        ensures
            code == self.code_value(),
    {
        match self {
            Status::Success => 200,
            Status::Unauthorized => 401,
        }
    }
}

/// A reply: status, content type where one is set, and a one-shot body.
#[derive(Debug, PartialEq, Eq)]
pub struct Response {
    pub status: Status,
    /// The value of the `Content-Type` header, where the reply sets one.
    pub content_type: Option<&'static str>,
    pub body: AuthBody,
}

/// What a `Response` stands for in contracts: its status, its content type,
/// the bytes that its body has yet to hand out, and whether the body has
/// handed its chunk out already.
pub struct ResponseView {
    pub status: Status,
    pub content_type: Option<Seq<char>>,
    pub body: Seq<u8>,
    pub body_ended: bool,
}

impl View for Response {
    type V = ResponseView;

    open spec fn view(&self) -> ResponseView {
        ResponseView {
            status: self.status,
            content_type: match self.content_type {
                Some(text) => Some(text@),
                None => None,
            },
            body: self.body.remaining(),
            body_ended: self.body.ended(),
        }
    }
}

/// `401 Unauthorized` with the fixed refusal text.
pub open spec fn unauthorized_reply() -> ResponseView {
    ResponseView {
        status: Status::Unauthorized,
        content_type: None,
        body: encode_utf8(UNAUTHORIZED_TEXT@),
        body_ended: false,
    }
}

/// `200 OK` with the fixed greeting.
pub open spec fn greeting_reply() -> ResponseView {
    ResponseView {
        status: Status::Success,
        content_type: None,
        body: encode_utf8(GREETING_TEXT@),
        body_ended: false,
    }
}

/// `200 OK` with the raw token as a JSON-typed body.
pub open spec fn token_reply(token: Seq<char>) -> ResponseView {
    ResponseView {
        status: Status::Success,
        content_type: Some(TOKEN_CONTENT_TYPE@),
        body: encode_utf8(token),
        body_ended: false,
    }
}

impl Response {
    /// The refusal that every failed authentication receives, whatever its cause.
    pub fn unauthorized() -> (response: Response)
        ensures
            response@ == unauthorized_reply(),
    {
        Response {
            status: Status::Unauthorized,
            content_type: None,
            body: AuthBody::new_constant(UNAUTHORIZED_TEXT.as_bytes()),
        }
    }

    /// The greeting that a request with a valid token receives.
    pub fn greeting() -> (response: Response)
        ensures
            response@ == greeting_reply(),
    {
        Response {
            status: Status::Success,
            content_type: None,
            body: AuthBody::new_constant(GREETING_TEXT.as_bytes()),
        }
    }

    /// The reply to a successful login: the token itself, not wrapped in JSON.
    pub fn token(token: String) -> (response: Response)
        ensures
            response@ == token_reply(token@),
    {
        Response {
            status: Status::Success,
            content_type: Some(TOKEN_CONTENT_TYPE),
            body: AuthBody::new_string(token),
        }
    }
}

} // verus!
