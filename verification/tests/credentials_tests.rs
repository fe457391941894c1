use argon2::password_hash::SaltString;
use argon2::{Argon2, PasswordHasher};
use auth_gateway::credentials::{
    get_password_hash, handle_login, verify, StoreFailure, StoreLookup, Verdict,
};
use auth_gateway::error::AuthError;

fn hash_of(password: &str) -> String {
    let salt = SaltString::encode_b64(b"0123456789abcdef").unwrap();
    Argon2::default().hash_password(password.as_bytes(), &salt).unwrap().to_string()
}

#[test]
fn verifier_tells_match_from_mismatch() {
    let stored = hash_of("correct horse");
    assert!(stored.starts_with("$argon2id$"));
    assert_eq!(verify(b"correct horse", &stored), Verdict::Match);
    assert_eq!(verify(b"correct horsf", &stored), Verdict::Mismatch);
    assert_eq!(verify(b"", &stored), Verdict::Mismatch);
    assert_eq!(verify(stored.as_bytes(), &stored), Verdict::Mismatch);
}

#[test]
fn verifier_reports_malformed_hashes() {
    for stored in ["", "correct horse", "argon2id", "$", "$argon2id$v=19$m=19456,t=2,p=1$$$$"] {
        assert_eq!(verify(b"correct horse", stored), Verdict::MalformedHash);
    }
}

#[test]
fn verifier_rejects_well_formed_hash_of_unknown_scheme() {
    assert_eq!(verify(b"pw", "$nosuchscheme$c2FsdHNhbHQ$aGFzaGhhc2hoYXNo"), Verdict::Mismatch);
}

#[test]
fn lookup_maps_to_hash_or_error() {
    assert_eq!(get_password_hash(StoreLookup::Found(String::from("$h"))), Ok(String::from("$h")));
    assert_eq!(get_password_hash(StoreLookup::Missing), Err(AuthError::AuthError));
    for step in [StoreFailure::Prepare, StoreFailure::Query, StoreFailure::Fetch, StoreFailure::Column] {
        assert_eq!(get_password_hash(StoreLookup::Failed(step)), Err(AuthError::SqlError));
    }
}

#[test]
fn login_succeeds_for_the_stored_password() {
    let stored = hash_of("s3cret");
    assert_eq!(handle_login(StoreLookup::Found(stored), "s3cret"), Ok(()));
}

#[test]
fn login_with_wrong_password_is_an_authentication_error() {
    let stored = hash_of("s3cret");
    assert_eq!(handle_login(StoreLookup::Found(stored), "S3cret"), Err(AuthError::AuthError));
}

#[test]
fn login_for_unknown_user_is_an_authentication_error() {
    assert_eq!(handle_login(StoreLookup::Missing, "s3cret"), Err(AuthError::AuthError));
}

#[test]
fn login_with_failed_lookup_is_a_store_error() {
    for step in [StoreFailure::Prepare, StoreFailure::Query, StoreFailure::Fetch, StoreFailure::Column] {
        assert_eq!(handle_login(StoreLookup::Failed(step), "s3cret"), Err(AuthError::SqlError));
    }
}

#[test]
fn login_against_malformed_record_is_a_store_error() {
    let lookup = StoreLookup::Found(String::from("not a hash"));
    assert_eq!(handle_login(lookup, "s3cret"), Err(AuthError::SqlError));
}
