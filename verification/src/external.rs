//! Trusted boundary: the few calls into outside code that the flow's
//! logic needs in the middle of a computation.  Each wrapper converts
//! plain values in and out; its contract states only what the callee's
//! source plainly shows.

use vstd::prelude::*;

verus! {

/// The PKCE code challenge derived from a verifier: the base64url
/// encoding of the SHA-256 digest of the verifier.  A function of the
/// verifier alone; its value is not axiomatized here.
pub uninterp spec fn pkce_challenge_of(verifier: Seq<char>) -> Seq<char>;

/// Whether a string parses as an absolute URL.
pub uninterp spec fn parses_as_url(s: Seq<char>) -> bool;

/// Relies on std's `String::push`: appends one character.
#[verifier::external_body]
pub(crate) fn push_char(s: &mut String, c: char)
    ensures
        final(s)@ == old(s)@.push(c),
{
    s.push(c);
}

/// Relies on openidconnect's `PkceCodeChallenge::new_random_sha256`: a
/// fresh random code verifier (43..128 base64url characters, hence
/// ASCII) together with its SHA-256 challenge (base64url, hence ASCII).
#[verifier::external_body]
pub(crate) fn new_random_pkce() -> (r: (String, String))
    ensures
        r.0@ == pkce_challenge_of(r.1@),
        r.0.is_ascii(),
        r.1.is_ascii(),
{
    let (challenge, verifier) = openidconnect::PkceCodeChallenge::new_random_sha256();
    (challenge.as_str().to_string(), verifier.secret().to_string())
}

/// Relies on openidconnect's `CsrfToken::new_random`: a fresh random
/// token, base64url-encoded (hence ASCII and unreserved in a query
/// string).
#[verifier::external_body]
pub(crate) fn new_random_csrf() -> (r: String)
    ensures
        r.is_ascii(),
{
    openidconnect::CsrfToken::new_random().secret().to_string()
}

/// Relies on openidconnect's `Nonce::new_random`: a fresh random nonce,
/// base64url-encoded (hence ASCII).
#[verifier::external_body]
pub(crate) fn new_random_nonce() -> (r: String)
    ensures
        r.is_ascii(),
{
    openidconnect::Nonce::new_random().secret().to_string()
}

/// Relies on the url crate's `Url::parse`: reports whether the string is
/// an absolute URL, a fact that depends on the string alone.
#[verifier::external_body]
pub(crate) fn url_parses(s: &str) -> (r: bool)
    ensures
        r == parses_as_url(s@),
{
    url::Url::parse(s).is_ok()
}

} // verus!
