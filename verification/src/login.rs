//! The login flow as a state machine. The caller performs each action (reads
//! a frame, parses the body, asks the credential store) and hands the outcome
//! back as the next event; every decision is taken here.

use vstd::prelude::*;
use crate::buffer::{BodyBuffer, MAX_BODY_BYTES};
use crate::error::AuthError;
use crate::response::{token_reply, unauthorized_reply, Response, ResponseView};
use crate::token::{generate_jwt, issued_token, TOKEN_VALIDITY_SECS};

verus! {

/// The credentials that a login body carries. The type has no `Debug` form,
/// nor has any other that holds a password, so that none is printed by accident.
#[derive(PartialEq, Eq)]
pub struct LoginRequest {
    pub username: String,
    pub password: String,
}

/// What `LoginRequest` stands for in contracts.
pub struct LoginRequestView {
    pub username: Seq<char>,
    pub password: Seq<char>,
}

impl View for LoginRequest {
    type V = LoginRequestView;

    open spec fn view(&self) -> LoginRequestView {
        LoginRequestView { username: self.username@, password: self.password@ }
    }
}

/// Where a login stands.
#[derive(PartialEq, Eq)]
pub enum LoginState {
    /// The body is being read; these are the bytes received so far.
    ReadingBody(BodyBuffer),
    /// The complete body was handed out to be parsed.
    Parsing,
    /// The credentials of this user were handed out to be checked.
    Verifying(String),
    /// The login has ended in a reply or a failure.
    Done,
}

/// What `LoginState` stands for in contracts.
pub enum LoginStateView {
    ReadingBody(Seq<u8>),
    Parsing,
    Verifying(Seq<char>),
    Done,
}

impl View for LoginState {
    type V = LoginStateView;

    open spec fn view(&self) -> LoginStateView {
        match self {
            LoginState::ReadingBody(buffer) => LoginStateView::ReadingBody(buffer@),
            LoginState::Parsing => LoginStateView::Parsing,
            LoginState::Verifying(username) => LoginStateView::Verifying(username@),
            LoginState::Done => LoginStateView::Done,
        }
    }
}

/// What happened since the last action.
#[derive(PartialEq, Eq)]
pub enum LoginEvent {
    /// A data frame of the body arrived.
    Data(Vec<u8>),
    /// A frame that carries no data arrived.
    OtherFrame,
    /// Reading the body failed.
    ReadFailed,
    /// The body has ended.
    EndOfBody,
    /// The body was parsed: the credentials, or `None` for a body that is no
    /// login request.
    Parsed(Option<LoginRequest>),
    /// The credential store has answered, or could not be reached.
    Checked(Result<(), AuthError>),
}

/// What `LoginEvent` stands for in contracts.
pub enum LoginEventView {
    Data(Seq<u8>),
    OtherFrame,
    ReadFailed,
    EndOfBody,
    Parsed(Option<LoginRequestView>),
    Checked(Result<(), AuthError>),
}

impl View for LoginEvent {
    type V = LoginEventView;

    open spec fn view(&self) -> LoginEventView {
        match self {
            LoginEvent::Data(frame) => LoginEventView::Data(frame@),
            LoginEvent::OtherFrame => LoginEventView::OtherFrame,
            LoginEvent::ReadFailed => LoginEventView::ReadFailed,
            LoginEvent::EndOfBody => LoginEventView::EndOfBody,
            LoginEvent::Parsed(Some(request)) => LoginEventView::Parsed(Some(request@)),
            LoginEvent::Parsed(None) => LoginEventView::Parsed(None),
            LoginEvent::Checked(result) => LoginEventView::Checked(*result),
        }
    }
}

/// What the caller is to do next.
#[derive(PartialEq, Eq)]
pub enum LoginAction {
    /// Read the next frame of the body.
    ReadFrame,
    /// Parse these bytes as a login request.
    Parse(Vec<u8>),
    /// Have the credential store check these credentials.
    Check(LoginRequest),
    /// Send this reply; the login is over.
    Respond(Response),
    /// Give the request up with this error, without a reply; the login is over.
    Fail(AuthError),
}

/// What `LoginAction` stands for in contracts.
pub enum LoginActionView {
    ReadFrame,
    Parse(Seq<u8>),
    Check(LoginRequestView),
    Respond(ResponseView),
    Fail(AuthError),
}

impl View for LoginAction {
    type V = LoginActionView;

    open spec fn view(&self) -> LoginActionView {
        match self {
            LoginAction::ReadFrame => LoginActionView::ReadFrame,
            LoginAction::Parse(bytes) => LoginActionView::Parse(bytes@),
            LoginAction::Check(request) => LoginActionView::Check(request@),
            LoginAction::Respond(response) => LoginActionView::Respond(response@),
            LoginAction::Fail(e) => LoginActionView::Fail(*e),
        }
    }
}

/// The state in which every login starts, and the action that goes with it.
pub open spec fn login_start() -> (LoginStateView, LoginActionView) {
    (LoginStateView::ReadingBody(Seq::empty()), LoginActionView::ReadFrame)
}

/// The login ends with the refusal.
pub open spec fn refused() -> (LoginStateView, LoginActionView) {
    (LoginStateView::Done, LoginActionView::Respond(unauthorized_reply()))
}

/// The login ends without a reply.
pub open spec fn failed(e: AuthError) -> (LoginStateView, LoginActionView) {
    (LoginStateView::Done, LoginActionView::Fail(e))
}

/// The step that the login flow takes from `state` on `event`.
///
/// - While the body is read, data frames are collected as long as the body
///   stays within `MAX_BODY_BYTES`; a body that grows past it is refused.
///   A failed read gives the request up with `IOError`. At the end of the
///   body, an empty body is refused and any other is handed out for parsing.
/// - A body that is no login request is refused; credentials are handed out
///   to be checked.
/// - Credentials that the store does not confirm, for whatever reason, are
///   refused. Confirmed ones are answered with a token for the user that
///   expires a validity window after `now`; if no token can be made, the
///   request is given up with `IOError`.
/// - An event that the state does not expect gives the request up with
///   `IOError`.
pub open spec fn login_transition(
    state: LoginStateView,
    event: LoginEventView,
    secret: Seq<u8>,
    now: u64,
) -> (LoginStateView, LoginActionView) {
    match (state, event) {
        (LoginStateView::ReadingBody(body), LoginEventView::Data(frame)) => {
            if body.len() + frame.len() <= MAX_BODY_BYTES {
                (LoginStateView::ReadingBody(body + frame), LoginActionView::ReadFrame)
            } else {
                refused()
            }
        },
        (LoginStateView::ReadingBody(body), LoginEventView::OtherFrame) => (
            LoginStateView::ReadingBody(body),
            LoginActionView::ReadFrame,
        ),
        (LoginStateView::ReadingBody(_), LoginEventView::ReadFailed) => failed(AuthError::IOError),
        (LoginStateView::ReadingBody(body), LoginEventView::EndOfBody) => {
            if body.len() == 0 {
                refused()
            } else {
                (LoginStateView::Parsing, LoginActionView::Parse(body))
            }
        },
        (LoginStateView::Parsing, LoginEventView::Parsed(None)) => refused(),
        (LoginStateView::Parsing, LoginEventView::Parsed(Some(request))) => (
            LoginStateView::Verifying(request.username),
            LoginActionView::Check(request),
        ),
        (LoginStateView::Verifying(_), LoginEventView::Checked(Err(_))) => refused(),
        (LoginStateView::Verifying(username), LoginEventView::Checked(Ok(_))) => {
            match issued_token(username, secret, now) {
                Ok(token) => (LoginStateView::Done, LoginActionView::Respond(token_reply(token))),
                Err(e) => failed(e),
            }
        },
        _ => failed(AuthError::IOError),
    }
}

/// Starts a login: nothing has been read yet, and the first frame is to be read.
pub fn login_begin() -> (start: (LoginState, LoginAction))
    ensures
        (start.0@, start.1@) == login_start(),
{
    (LoginState::ReadingBody(BodyBuffer::new()), LoginAction::ReadFrame)
}

/// Takes one step of the login flow. `secret` signs the token that a
/// confirmed login receives, and `now` is the time of the step in seconds
/// since the Unix epoch.
pub fn login_step(state: LoginState, event: LoginEvent, secret: &[u8], now: u64) -> (next: (
    LoginState,
    LoginAction,
))
    requires
        now + TOKEN_VALIDITY_SECS <= u64::MAX,
    ensures
        (next.0@, next.1@) == login_transition(state@, event@, secret@, now),
{
    match (state, event) {
        (LoginState::ReadingBody(mut buffer), LoginEvent::Data(frame)) => {
            match buffer.load(frame.as_slice()) {
                Ok(()) => (LoginState::ReadingBody(buffer), LoginAction::ReadFrame),
                Err(_) => (LoginState::Done, LoginAction::Respond(Response::unauthorized())),
            }
        },
        (LoginState::ReadingBody(buffer), LoginEvent::OtherFrame) => (
            LoginState::ReadingBody(buffer),
            LoginAction::ReadFrame,
        ),
        (LoginState::ReadingBody(_), LoginEvent::ReadFailed) => (
            LoginState::Done,
            LoginAction::Fail(AuthError::IOError),
        ),
        (LoginState::ReadingBody(buffer), LoginEvent::EndOfBody) => {
            if buffer.len() == 0 {
                (LoginState::Done, LoginAction::Respond(Response::unauthorized()))
            } else {
                (LoginState::Parsing, LoginAction::Parse(buffer.into_bytes()))
            }
        },
        (LoginState::Parsing, LoginEvent::Parsed(None)) => (
            LoginState::Done,
            LoginAction::Respond(Response::unauthorized()),
        ),
        (LoginState::Parsing, LoginEvent::Parsed(Some(request))) => {
            let username = request.username.clone();
            (LoginState::Verifying(username), LoginAction::Check(request))
        },
        (LoginState::Verifying(_), LoginEvent::Checked(Err(_))) => (
            LoginState::Done,
            LoginAction::Respond(Response::unauthorized()),
        ),
        (LoginState::Verifying(username), LoginEvent::Checked(Ok(_))) => {
            match generate_jwt(username.as_str(), secret, now) {
                Ok(token) => (LoginState::Done, LoginAction::Respond(Response::token(token))),
                Err(e) => (LoginState::Done, LoginAction::Fail(e)),
            }
        },
        _ => (LoginState::Done, LoginAction::Fail(AuthError::IOError)),
    }
}

} // verus!
