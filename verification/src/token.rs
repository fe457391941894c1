//! Session tokens: signed, time-bounded claims about an authenticated subject.

use vstd::prelude::*;
use crate::error::AuthError;

verus! {

/// How long a freshly issued token stays valid, in seconds.
pub const TOKEN_VALIDITY_SECS: u64 = 3600;

/// The signed payload of a session token.
#[derive(Debug, PartialEq, Eq)]
pub struct Claims {
    /// The authenticated subject.
    pub sub: String,
    /// The instant, in seconds since the Unix epoch, after which the token is void.
    pub exp: u64,
}

/// What `Claims` stand for in contracts.
pub struct ClaimsView {
    pub sub: Seq<char>,
    pub exp: u64,
}

impl View for Claims {
    type V = ClaimsView;

    open spec fn view(&self) -> ClaimsView {
        ClaimsView { sub: self.sub@, exp: self.exp }
    }
}

impl Claims {
    /// The claims issued at `now` for `subject`: they expire one validity
    /// window later.
    pub fn issue(subject: &str, now: u64) -> (claims: Claims)
        requires
            now + TOKEN_VALIDITY_SECS <= u64::MAX,
        ensures
            claims@.sub == subject@,
            claims@.exp == now + TOKEN_VALIDITY_SECS,
    {
        Claims { sub: subject.to_owned(), exp: now + TOKEN_VALIDITY_SECS }
    }

    /// Whether the expiry lies strictly before `now`.
    pub fn is_expired(&self, now: u64) -> (expired: bool)
        ensures
            expired == (self.exp < now),
    {
        self.exp < now
    }
}

/// The two claims that this library reads from a decoded token, each absent
/// where the token does not carry it in the expected form.
#[derive(Debug, PartialEq, Eq)]
pub struct TokenPayload {
    /// The `sub` claim, if it is present and a string.
    pub sub: Option<String>,
    /// The `exp` claim, if it is present and a non-negative integer below 2^64.
    pub exp: Option<u64>,
}

impl TokenPayload {
    /// The `sub` claim as a sequence of characters, if it is there.
    pub open spec fn sub_view(self) -> Option<Seq<char>> {
        match self.sub {
            Some(s) => Some(s@),
            None => None,
        }
    }
}

impl View for TokenPayload {
    type V = (Option<Seq<char>>, Option<u64>);

    open spec fn view(&self) -> (Option<Seq<char>>, Option<u64>) {
        (self.sub_view(), self.exp)
    }
}

/// `jsonwebtoken::errors::Error`, the error of the encoder and the decoder.
/// Nothing is read from it: every such error becomes an `AuthError`.
#[verifier::external_type_specification]
#[verifier::external_body]
pub struct ExJwtError(jsonwebtoken::errors::Error);

/// The token that `jsonwebtoken::encode` produces under the default header
/// (HS256) for the claims `{"sub": sub, "exp": exp}` and the HMAC key `secret`,
/// or `None` where it reports an error.
pub uninterp spec fn jwt_encoded(sub: Seq<char>, exp: u64, secret: Seq<u8>) -> Option<Seq<char>>;

/// The `sub` and `exp` claims of `token` as `jsonwebtoken::decode` yields them
/// when it accepts the token's shape, HS256 header and signature under the
/// HMAC key `secret`, without regard to the current time; `None` where it
/// reports an error.
pub uninterp spec fn jwt_decoded(token: Seq<char>, secret: Seq<u8>) -> Option<
    (Option<Seq<char>>, Option<u64>),
>;

/// Calls `jsonwebtoken::encode` with the default header, the claims object
/// `{"sub": sub, "exp": exp}` and the HMAC key `secret`. The encoder is a
/// function of these three values alone: its outcome is `jwt_encoded`.
#[verifier::external_body]
fn jwt_encode(sub: &str, exp: u64, secret: &[u8]) -> (encoded: Result<
    String,
    jsonwebtoken::errors::Error,
>)
    ensures
        match encoded {
            Ok(token) => jwt_encoded(sub@, exp, secret@) == Some(token@),
            Err(_) => jwt_encoded(sub@, exp, secret@) is None,
        },
{
    let mut claims = serde_json::Map::new();
    claims.insert(String::from("sub"), serde_json::Value::from(sub));
    claims.insert(String::from("exp"), serde_json::Value::from(exp));
    let key = jsonwebtoken::EncodingKey::from_secret(secret);
    jsonwebtoken::encode(&jsonwebtoken::Header::default(), &claims, &key)
}

/// Calls `jsonwebtoken::decode` with the default validation (HS256 only, `exp`
/// required) except that expiry is not compared with the clock, and picks the
/// `sub` and `exp` claims out of the payload. With the clock left out the
/// decoder is a function of the token and the key alone: its outcome is
/// `jwt_decoded`.
#[verifier::external_body]
fn jwt_decode(token: &str, secret: &[u8]) -> (decoded: Result<
    TokenPayload,
    jsonwebtoken::errors::Error,
>)
    ensures
        match decoded {
            Ok(payload) => jwt_decoded(token@, secret@) == Some(payload@),
            Err(_) => jwt_decoded(token@, secret@) is None,
        },
{
    let mut validation = jsonwebtoken::Validation::default();
    validation.validate_exp = false;
    let key = jsonwebtoken::DecodingKey::from_secret(secret);
    let data = jsonwebtoken::decode::<serde_json::Value>(token, &key, &validation)?;
    Ok(
        TokenPayload {
            sub: data.claims.get("sub").and_then(|v| v.as_str()).map(String::from),
            exp: data.claims.get("exp").and_then(|v| v.as_u64()),
        },
    )
}

/// What issuing a token for `username` at `now` under `secret` yields.
pub open spec fn issued_token(username: Seq<char>, secret: Seq<u8>, now: u64) -> Result<
    Seq<char>,
    AuthError,
> {
    match jwt_encoded(username, (now + TOKEN_VALIDITY_SECS) as u64, secret) {
        Some(token) => Ok(token),
        None => Err(AuthError::IOError),
    }
}

/// Issues a token for `username` that expires one validity window after `now`.
/// The only failure is the encoder's, reported as `IOError`.
pub fn generate_jwt(username: &str, secret: &[u8], now: u64) -> (result: Result<String, AuthError>)
    requires
        now + TOKEN_VALIDITY_SECS <= u64::MAX,
    ensures
        match result {
            Ok(token) => issued_token(username@, secret@, now) == Ok::<Seq<char>, AuthError>(
                token@,
            ),
            Err(e) => issued_token(username@, secret@, now) == Err::<Seq<char>, AuthError>(e),
        },
{
    let claims = Claims::issue(username, now);
    match jwt_encode(claims.sub.as_str(), claims.exp, secret) {
        Ok(token) => Ok(token),
        Err(_) => Err(AuthError::IOError),
    }
}

/// How a decoded payload is judged at `now`: both claims must be present, and
/// the expiry must not lie before `now`.
pub open spec fn judged_payload(payload: (Option<Seq<char>>, Option<u64>), now: u64) -> Result<
    ClaimsView,
    AuthError,
> {
    match payload {
        (Some(sub), Some(exp)) => if exp < now {
            Err(AuthError::Expired)
        } else {
            Ok(ClaimsView { sub, exp })
        },
        _ => Err(AuthError::AuthError),
    }
}

/// Judges a decoded payload at `now`. A payload that lacks a claim is an
/// authentication error; one whose expiry lies before `now` is `Expired`.
pub fn check_payload(payload: TokenPayload, now: u64) -> (result: Result<Claims, AuthError>)
    ensures
        match result {
            Ok(claims) => judged_payload(payload@, now) == Ok::<ClaimsView, AuthError>(claims@),
            Err(e) => judged_payload(payload@, now) == Err::<ClaimsView, AuthError>(e),
        },
{
    match (payload.sub, payload.exp) {
        (Some(sub), Some(exp)) => {
            let claims = Claims { sub, exp };
            if claims.is_expired(now) {
                Err(AuthError::Expired)
            } else {
                Ok(claims)
            }
        },
        _ => Err(AuthError::AuthError),
    }
}

/// What verifying a token at `now` yields, given what the decoder made of it:
/// the claims, or the one authentication error that every rejection becomes.
pub open spec fn verified_claims(
    decoded: Option<(Option<Seq<char>>, Option<u64>)>,
    now: u64,
) -> Result<ClaimsView, AuthError> {
    match decoded {
        Some(payload) => match judged_payload(payload, now) {
            Ok(claims) => Ok(claims),
            Err(_) => Err(AuthError::AuthError),
        },
        None => Err(AuthError::AuthError),
    }
}

/// Verifies `token` under `secret` at `now`. Every rejection, be it a
/// malformed token, a bad signature, a missing claim or an expiry in the past,
/// is reported as `AuthError`.
pub fn verify_jwt(token: &str, secret: &[u8], now: u64) -> (result: Result<Claims, AuthError>)
    ensures
        match result {
            Ok(claims) => verified_claims(jwt_decoded(token@, secret@), now) == Ok::<
                ClaimsView,
                AuthError,
            >(claims@),
            Err(e) => verified_claims(jwt_decoded(token@, secret@), now) == Err::<
                ClaimsView,
                AuthError,
            >(e),
        },
{
    match jwt_decode(token, secret) {
        Ok(payload) => match check_payload(payload, now) {
            Ok(claims) => Ok(claims),
            Err(_) => Err(AuthError::AuthError),
        },
        Err(_) => Err(AuthError::AuthError),
    }
}

} // verus!
