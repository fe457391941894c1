//! Request dispatch: the login route, and the token gate in front of every
//! other route.

use vstd::prelude::*;
use vstd::utf8::is_ascii_chars;
use crate::error::AuthError;
use crate::response::{greeting_reply, unauthorized_reply, Response, ResponseView};
use crate::text::{str_equal, strip_ascii_prefix};
use crate::token::{jwt_decoded, verified_claims, verify_jwt, Claims, ClaimsView};

verus! {

/// The path of the login route.
pub const LOGIN_PATH: &'static str = "/login";

/// The scheme that an `Authorization` header must begin with, blank included.
pub const BEARER_PREFIX: &'static str = "Bearer ";

/// The method of a request: one of the standard methods, or an extension.
#[derive(Debug, Clone, Copy, PartialEq, Eq, Structural)]
pub enum Method {
    Get,
    Head,
    Post,
    Put,
    Delete,
    Connect,
    Options,
    Trace,
    Patch,
    /// Any method beyond the standard ones.
    Extension,
}

/// The `Authorization` header of a request.
#[derive(Debug, PartialEq, Eq)]
pub enum Authorization {
    /// The request carries no such header.
    Missing,
    /// The header's value is not visible ASCII text.
    Unreadable,
    /// The header's value.
    Text(String),
}

/// What `Authorization` stands for in contracts.
pub enum AuthorizationView {
    Missing,
    Unreadable,
    Text(Seq<char>),
}

impl View for Authorization {
    type V = AuthorizationView;

    open spec fn view(&self) -> AuthorizationView {
        match self {
            Authorization::Missing => AuthorizationView::Missing,
            Authorization::Unreadable => AuthorizationView::Unreadable,
            Authorization::Text(text) => AuthorizationView::Text(text@),
        }
    }
}

/// What the dispatcher reads of a request before it touches the body.
#[derive(Debug, PartialEq, Eq)]
pub struct RequestHead {
    pub method: Method,
    /// The path of the request target, without the query.
    pub path: String,
    pub authorization: Authorization,
}

/// What `RequestHead` stands for in contracts.
pub struct RequestHeadView {
    pub method: Method,
    pub path: Seq<char>,
    pub authorization: AuthorizationView,
}

impl View for RequestHead {
    type V = RequestHeadView;

    open spec fn view(&self) -> RequestHeadView {
        RequestHeadView {
            method: self.method,
            path: self.path@,
            authorization: self.authorization@,
        }
    }
}

/// Where a request goes.
#[derive(Debug, Clone, Copy, PartialEq, Eq, Structural)]
pub enum Route {
    /// `POST /login`: the login flow.
    Login,
    /// Everything else: the token gate.
    Protected,
}

/// The route of a request: the login flow for `POST` on the login path, the
/// token gate for every other method and path.
pub open spec fn route_of(method: Method, path: Seq<char>) -> Route {
    if method == Method::Post && path == LOGIN_PATH@ {
        Route::Login
    } else {
        Route::Protected
    }
}

/// Decides the route of a request from its method and path.
pub fn route(method: Method, path: &str) -> (route: Route)
    ensures
        route == route_of(method, path@),
{
    match method {
        Method::Post => {
            if str_equal(path, LOGIN_PATH) {
                Route::Login
            } else {
                Route::Protected
            }
        },
        _ => Route::Protected,
    }
}

/// The token that a header value presents: what follows the bearer scheme,
/// or `None` where the value does not begin with it.
pub open spec fn bearer_token(header: Seq<char>) -> Option<Seq<char>> {
    if BEARER_PREFIX@.is_prefix_of(header) {
        Some(header.skip(BEARER_PREFIX@.len() as int))
    } else {
        None
    }
}

/// The token that an `Authorization` header presents, if any.
pub open spec fn presented_token(authorization: AuthorizationView) -> Option<Seq<char>> {
    match authorization {
        AuthorizationView::Text(header) => bearer_token(header),
        _ => None,
    }
}

/// What the token gate makes of a header at `now` under `secret`: the claims
/// of the token that the header presents, or the authentication error.
pub open spec fn gate_outcome(
    authorization: AuthorizationView,
    secret: Seq<u8>,
    now: u64,
) -> Result<ClaimsView, AuthError> {
    match presented_token(authorization) {
        Some(token) => verified_claims(jwt_decoded(token, secret), now),
        None => Err(AuthError::AuthError),
    }
}

/// Extracts the token that a header value presents.
pub fn extract_bearer_token<'a>(header: &'a str) -> (token: Option<&'a str>)
    ensures
        match token {
            Some(t) => bearer_token(header@) == Some(t@),
            None => bearer_token(header@) is None,
        },
{
    proof {
        reveal_strlit("Bearer ");
        assert(is_ascii_chars(BEARER_PREFIX@));
    }
    strip_ascii_prefix(header, BEARER_PREFIX)
}

/// The token gate: the request must carry a readable `Authorization` header
/// that begins with the bearer scheme and presents a token that verifies
/// under `secret` at `now`. Every failure is the same authentication error.
pub fn check_request_token(request: &RequestHead, secret: &[u8], now: u64) -> (result: Result<
    Claims,
    AuthError,
>)
    ensures
        match result {
            Ok(claims) => gate_outcome(request@.authorization, secret@, now) == Ok::<
                ClaimsView,
                AuthError,
            >(claims@),
            Err(e) => gate_outcome(request@.authorization, secret@, now) == Err::<
                ClaimsView,
                AuthError,
            >(e),
        },
{
    let header = match &request.authorization {
        Authorization::Text(text) => text.as_str(),
        _ => {
            return Err(AuthError::AuthError);
        },
    };
    match extract_bearer_token(header) {
        Some(token) => verify_jwt(token, secret, now),
        None => Err(AuthError::AuthError),
    }
}

/// What the dispatcher does with a request.
#[derive(Debug, PartialEq, Eq)]
pub enum Dispatch {
    /// The request starts the login flow, which reads its body.
    Login,
    /// The request is answered at once.
    Reply(Response),
}

/// What `Dispatch` stands for in contracts.
pub enum DispatchView {
    Login,
    Reply(ResponseView),
}

impl View for Dispatch {
    type V = DispatchView;

    open spec fn view(&self) -> DispatchView {
        match self {
            Dispatch::Login => DispatchView::Login,
            Dispatch::Reply(response) => DispatchView::Reply(response@),
        }
    }
}

/// What the dispatcher does with a request at `now` under `secret`.
pub open spec fn dispatch_of(request: RequestHeadView, secret: Seq<u8>, now: u64) -> DispatchView {
    match route_of(request.method, request.path) {
        Route::Login => DispatchView::Login,
        Route::Protected => match gate_outcome(request.authorization, secret, now) {
            Ok(_) => DispatchView::Reply(greeting_reply()),
            Err(_) => DispatchView::Reply(unauthorized_reply()),
        },
    }
}

/// The length of the signing secret in bytes.
pub const SECRET_BYTES: usize = 32;

/// The per-connection dispatcher. It holds the signing secret, which is made
/// once per process and never changes. The type has no `Debug` form, so that
/// the secret is not printed by accident.
#[derive(PartialEq, Eq)]
pub struct AuthService {
    pub secret: [u8; SECRET_BYTES],
}

impl AuthService {
    /// Dispatches a request: `POST /login` starts the login flow; any other
    /// request gets the greeting if it presents a valid token, and the refusal
    /// otherwise.
    pub fn call(&self, request: &RequestHead, now: u64) -> (dispatch: Dispatch)
        ensures
            dispatch@ == dispatch_of(request@, self.secret@, now),
    {
        match route(request.method, request.path.as_str()) {
            Route::Login => Dispatch::Login,
            Route::Protected => match check_request_token(request, self.secret.as_slice(), now) {
                Ok(_) => Dispatch::Reply(Response::greeting()),
                Err(_) => Dispatch::Reply(Response::unauthorized()),
            },
        }
    }
}

} // verus!
