//! The flow's failure taxonomy and its mapping to HTTP responses.

use vstd::prelude::*;

use crate::http::{bad_request, internal_server_error, HttpResponse};

verus! {

/// Every way the login flow can fail.
///
/// `InvalidState`, `MissingIdToken`, `InvalidIdToken` and
/// `AccessTokenMismatch` are client-caused or attack-indicative;
/// `TokenExchangeFailed` and `UpstreamUnavailable` are upstream failures;
/// `Misconfiguration` means the flow itself was set up with bad values
/// (a malformed issuer or redirect URL) and should abort startup.
#[derive(Clone, Copy, PartialEq, Eq, Structural, Debug)]
pub enum AuthError {
    InvalidState,
    TokenExchangeFailed,
    MissingIdToken,
    InvalidIdToken,
    AccessTokenMismatch,
    UpstreamUnavailable,
    Misconfiguration,
}

/// Whether an error is client-caused (reported as 400) rather than an
/// upstream or configuration failure (reported as 500).
pub open spec fn is_client_error(e: AuthError) -> bool {
    e == AuthError::InvalidState || e == AuthError::MissingIdToken
        || e == AuthError::InvalidIdToken || e == AuthError::AccessTokenMismatch
}

impl AuthError {
    /// The status code the web layer must report for this error:
    /// 400 for client-caused errors, 500 for upstream or infrastructure
    /// errors, never leaking upstream detail.
    pub fn http_status(&self) -> (r: u16)
        ensures
            r == 400 <==> is_client_error(*self),
            r == 400 || r == 500,
    {
        match self {
            AuthError::InvalidState => 400,
            AuthError::MissingIdToken => 400,
            AuthError::InvalidIdToken => 400,
            AuthError::AccessTokenMismatch => 400,
            AuthError::TokenExchangeFailed => 500,
            AuthError::UpstreamUnavailable => 500,
            AuthError::Misconfiguration => 500,
        }
    }

    /// A short description of the error, as the flow reports it.
    pub fn message(&self) -> (r: String)
        ensures
            r@ == spec_message(*self),
    {
        match self {
            AuthError::InvalidState => String::from_str("Invalid state"),
            AuthError::TokenExchangeFailed => {
                String::from_str("Failed to exchange code for token")
            },
            AuthError::MissingIdToken => String::from_str("Missing ID token"),
            AuthError::InvalidIdToken => String::from_str("Invalid ID token"),
            AuthError::AccessTokenMismatch => String::from_str("Invalid access token hash"),
            AuthError::UpstreamUnavailable => String::from_str("Failed to get OIDC client"),
            AuthError::Misconfiguration => String::from_str("OIDC client misconfigured"),
        }
    }
}

/// The text reported for each error.
pub open spec fn spec_message(e: AuthError) -> Seq<char> {
    match e {
        AuthError::InvalidState => "Invalid state"@,
        AuthError::TokenExchangeFailed => "Failed to exchange code for token"@,
        AuthError::MissingIdToken => "Missing ID token"@,
        AuthError::InvalidIdToken => "Invalid ID token"@,
        AuthError::AccessTokenMismatch => "Invalid access token hash"@,
        AuthError::UpstreamUnavailable => "Failed to get OIDC client"@,
        AuthError::Misconfiguration => "OIDC client misconfigured"@,
    }
}

/// Classifies an error into the HTTP-facing response: a 400 with the
/// error's text for client-caused errors, a 500 for the rest.
pub fn error_response(e: &AuthError) -> (r: HttpResponse)
    ensures
        r.status == 400 <==> is_client_error(*e),
        r.status == 400 || r.status == 500,
        r.body@ == spec_message(*e),
{
    let status = e.http_status();
    if status == 400 {
        bad_request(e.message())
    } else {
        internal_server_error(e.message())
    }
}

} // verus!
