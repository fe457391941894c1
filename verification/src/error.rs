use vstd::prelude::*;

verus! {

/// The ways in which handling a request can fail.
#[derive(Debug, Clone, Copy, PartialEq, Eq, Structural)]
pub enum AuthError {
    /// Transport failure, or an internal failure unrelated to credentials.
    IOError,
    /// The credential store could not answer, or holds a malformed record.
    SqlError,
    /// Bad credentials, a bad or missing token, or a malformed login body.
    AuthError,
    /// The token's signature is good but its expiry lies in the past.
    Expired,
}

impl AuthError {
    /// Whether the failure belongs to the authentication class, which a client
    /// only ever sees as `401 Unauthorized`.
    pub open spec fn is_authentication_class(self) -> bool {
        self == AuthError::AuthError || self == AuthError::Expired
    }

    /// The text that describes the failure in diagnostics.
    pub open spec fn message_text(self) -> Seq<char> {
        match self {
            AuthError::IOError => "I/O Error"@,
            AuthError::SqlError => "SQL Error"@,
            AuthError::AuthError => "Authentication Error"@,
            AuthError::Expired => "Token Expired"@,
        }
    }

    /// The text that describes the failure in diagnostics.
    pub fn message(&self) -> (text: &'static str)
        ensures
            text@ == self.message_text(),
    {
        match self {
            AuthError::IOError => "I/O Error",
            AuthError::SqlError => "SQL Error",
            AuthError::AuthError => "Authentication Error",
            AuthError::Expired => "Token Expired",
        }
    }
}

} // verus!
