//! Credential checks: what a store lookup and a candidate password amount to.

use vstd::prelude::*;
use vstd::utf8::encode_utf8;
use argon2::PasswordVerifier;
use crate::error::AuthError;

verus! {

/// The step at which a lookup in the credential store failed.
#[derive(Debug, Clone, Copy, PartialEq, Eq, Structural)]
pub enum StoreFailure {
    /// The query could not be prepared.
    Prepare,
    /// The query could not be run.
    Query,
    /// The first row could not be fetched.
    Fetch,
    /// The row's password hash could not be read as text.
    Column,
}

/// What looking a user name up in the credential store produced.
#[derive(Debug, PartialEq, Eq)]
pub enum StoreLookup {
    /// The record exists; this is its password hash.
    Found(String),
    /// No record carries the user name.
    Missing,
    /// The store could not answer.
    Failed(StoreFailure),
}

/// What `StoreLookup` stands for in contracts.
pub enum StoreLookupView {
    Found(Seq<char>),
    Missing,
    Failed(StoreFailure),
}

impl View for StoreLookup {
    type V = StoreLookupView;

    open spec fn view(&self) -> StoreLookupView {
        match self {
            StoreLookup::Found(hash) => StoreLookupView::Found(hash@),
            StoreLookup::Missing => StoreLookupView::Missing,
            StoreLookup::Failed(step) => StoreLookupView::Failed(*step),
        }
    }
}

/// The verdict of the credential verifier.
#[derive(Debug, Clone, Copy, PartialEq, Eq, Structural)]
pub enum Verdict {
    /// The password belongs to the hash.
    Match,
    /// The hash is well formed and the password does not belong to it.
    Mismatch,
    /// The stored hash is no PHC string.
    MalformedHash,
}

/// `argon2::password_hash::Error`, the error of the parser and the verifier.
/// Nothing is read from it but that it is an error.
#[verifier::external_type_specification]
#[verifier::external_body]
pub struct ExPasswordHashError(argon2::password_hash::Error);

/// Whether `argon2::PasswordHash::new` accepts `stored` as a PHC string.
pub uninterp spec fn phc_well_formed(stored: Seq<char>) -> bool;

/// Whether `verify_password` of `argon2::Argon2::default()` accepts
/// `password` for the hash that `stored` parses to.
pub uninterp spec fn argon2_accepts(password: Seq<u8>, stored: Seq<char>) -> bool;

/// Calls `argon2::PasswordHash::new` on `stored` and drops the parsed hash.
/// The parser reads nothing but the string: whether it succeeds is
/// `phc_well_formed`.
#[verifier::external_body]
fn parse_stored_hash(stored: &str) -> (parsed: Result<(), argon2::password_hash::Error>)
    ensures
        (parsed is Ok) == phc_well_formed(stored@),
{
    argon2::PasswordHash::new(stored).map(|_| ())
}

/// Calls `verify_password` of `argon2::Argon2::default()` on `password` and
/// the parsed form of `stored`. The routine recomputes the hash from the
/// password and from the parameters and the salt that the string embeds, and
/// compares: it reads nothing else, and whether it succeeds is
/// `argon2_accepts`. While it runs it holds as much memory as the embedded
/// parameters ask for.
#[verifier::external_body]
fn verify_against_stored_hash(password: &[u8], stored: &str) -> (verified: Result<
    (),
    argon2::password_hash::Error,
>)
    requires
        phc_well_formed(stored@),
    ensures
        (verified is Ok) == argon2_accepts(password@, stored@),
{
    let hash = argon2::PasswordHash::new(stored)?;
    argon2::Argon2::default().verify_password(password, &hash)
}

/// What the credential verifier makes of a candidate password and a stored hash.
pub open spec fn verdict_of(password: Seq<u8>, stored: Seq<char>) -> Verdict {
    if !phc_well_formed(stored) {
        Verdict::MalformedHash
    } else if argon2_accepts(password, stored) {
        Verdict::Match
    } else {
        Verdict::Mismatch
    }
}

/// Decides whether `candidate` is the password that `stored_hash` was made from.
pub fn verify(candidate: &[u8], stored_hash: &str) -> (verdict: Verdict)
    ensures
        verdict == verdict_of(candidate@, stored_hash@),
{
    match parse_stored_hash(stored_hash) {
        Err(_) => Verdict::MalformedHash,
        Ok(()) => match verify_against_stored_hash(candidate, stored_hash) {
            Ok(()) => Verdict::Match,
            Err(_) => Verdict::Mismatch,
        },
    }
}

/// The password hash that a lookup yields, or the reason there is none.
pub open spec fn password_hash_of(lookup: StoreLookupView) -> Result<Seq<char>, AuthError> {
    match lookup {
        StoreLookupView::Found(hash) => Ok(hash),
        StoreLookupView::Missing => Err(AuthError::AuthError),
        StoreLookupView::Failed(_) => Err(AuthError::SqlError),
    }
}

/// Turns a lookup into the stored password hash. An unknown user name is an
/// authentication error; a lookup that failed, at whatever step, is a store
/// error.
pub fn get_password_hash(lookup: StoreLookup) -> (result: Result<String, AuthError>)
    ensures
        match result {
            Ok(hash) => password_hash_of(lookup@) == Ok::<Seq<char>, AuthError>(hash@),
            Err(e) => password_hash_of(lookup@) == Err::<Seq<char>, AuthError>(e),
        },
{
    match lookup {
        StoreLookup::Found(hash) => Ok(hash),
        StoreLookup::Missing => Err(AuthError::AuthError),
        StoreLookup::Failed(_) => Err(AuthError::SqlError),
    }
}

/// The outcome of a login attempt, given what the store holds for the user
/// name and the bytes of the password that was presented.
pub open spec fn login_outcome(lookup: StoreLookupView, password: Seq<u8>) -> Result<
    (),
    AuthError,
> {
    match password_hash_of(lookup) {
        Err(e) => Err(e),
        Ok(hash) => match verdict_of(password, hash) {
            Verdict::Match => Ok(()),
            Verdict::Mismatch => Err(AuthError::AuthError),
            Verdict::MalformedHash => Err(AuthError::SqlError),
        },
    }
}

/// Decides a login attempt. It succeeds exactly when the record exists, its
/// hash is well formed and the password belongs to it. A missing record and a
/// wrong password are authentication errors; a failed lookup and a malformed
/// hash are store errors.
pub fn handle_login(lookup: StoreLookup, password: &str) -> (result: Result<(), AuthError>)
    ensures
        result == login_outcome(lookup@, encode_utf8(password@)),
{
    let stored_hash = match get_password_hash(lookup) {
        Ok(hash) => hash,
        Err(e) => {
            return Err(e);
        },
    };
    match verify(password.as_bytes(), stored_hash.as_str()) {
        Verdict::Match => Ok(()),
        Verdict::Mismatch => Err(AuthError::AuthError),
        Verdict::MalformedHash => Err(AuthError::SqlError),
    }
}

} // verus!
