//! The login flow: initiation and redirect-callback.
//!
//! `auth_login` builds the authorization URL for a fresh login and
//! records the pending nonce and PKCE verifier under a fresh CSRF token.
//! The callback is split around the token-endpoint round trip, which the
//! caller performs: `auth_redirect_begin` consumes the pending record and
//! decides whether an exchange may happen at all, and
//! `auth_redirect_finish` turns the outcome of the exchange and
//! verification into a credential or a classified failure.

use vstd::prelude::*;

use crate::errors::AuthError;
use crate::external::new_random_csrf;
use crate::external::new_random_nonce;
use crate::external::new_random_pkce;
use crate::external::pkce_challenge_of;
use crate::provider::handle_wf;
use crate::provider::OidcClientHandle;
use crate::provider::OidcClientHandleView;
use crate::provider::OidcClientProvider;
use crate::provider::ProviderConfiguration;
use crate::store::AuthState;
use crate::store::AuthStateStore;
use crate::store::AuthStateView;
use crate::urlenc::encoded;
use crate::urlenc::append_encoded;

verus! {

/// The authorization URL for one login attempt: the provider's
/// authorization endpoint asked for an authorization code with the
/// `openid` and `profile` scopes, carrying the CSRF token as the state
/// parameter, the nonce, and the PKCE challenge.
pub open spec fn auth_url_spec(
    h: OidcClientHandleView,
    state: Seq<char>,
    nonce: Seq<char>,
    challenge: Seq<char>,
) -> Seq<char> {
    h.config.authorization_endpoint + "?response_type=code&client_id="@ + encoded(h.client_id)
        + "&redirect_uri="@ + encoded(h.redirect_uri) + "&scope=openid%20profile"@ + "&state="@
        + encoded(state) + "&nonce="@ + encoded(nonce) + "&code_challenge="@ + encoded(challenge)
        + "&code_challenge_method=S256"@
}

/// Initiates a login with a ready client: generates a PKCE
/// challenge/verifier pair, a nonce and a CSRF token, records nonce and
/// verifier under the token, and returns the authorization URL to
/// redirect to.  Beyond building the URL, nothing happens at the
/// identity provider.
pub fn initiate(store: &mut AuthStateStore, client: &OidcClientHandle) -> (r: String)
    requires
        old(store).wf(),
        handle_wf(client@),
    ensures
        final(store).wf(),
        exists|state: Seq<char>, nonce: Seq<char>, verifier: Seq<char>|
            {
                &&& r@ == auth_url_spec(client@, state, nonce, pkce_challenge_of(verifier))
                &&& final(store)@ == old(store)@.insert(
                    state,
                    AuthStateView { nonce, pkce_verifier: verifier },
                )
            },
{
    let (challenge, verifier) = new_random_pkce();
    let state = new_random_csrf();
    let nonce = new_random_nonce();
    let mut url = client.config.authorization_endpoint.clone();
    url.append("?response_type=code&client_id=");
    append_encoded(&mut url, client.client_id.as_str());
    url.append("&redirect_uri=");
    append_encoded(&mut url, client.redirect_uri.as_str());
    url.append("&scope=openid%20profile");
    url.append("&state=");
    append_encoded(&mut url, state.as_str());
    url.append("&nonce=");
    append_encoded(&mut url, nonce.as_str());
    url.append("&code_challenge=");
    append_encoded(&mut url, challenge.as_str());
    url.append("&code_challenge_method=S256");
    proof {
        assert(url@ =~= auth_url_spec(client@, state@, nonce@, pkce_challenge_of(verifier@)));
    }
    store.put(state, AuthState { nonce, pkce_verifier: verifier });
    url
}

/// Initiates a login: obtains a ready client from the provider's cache
/// (fetching the configuration anew at most once per time-to-live
/// window), then builds the authorization URL and records the pending
/// nonce and verifier as [`initiate`] does.  A discovery or validation
/// failure is returned with the pending-login store untouched.
pub fn auth_login<F: FnOnce() -> Result<ProviderConfiguration, AuthError>>(
    store: &mut AuthStateStore,
    provider: &mut OidcClientProvider,
    now_ms: u64,
    fetch: F,
) -> (r: Result<String, AuthError>)
    requires
        old(store).wf(),
        now_ms >= old(provider).spec_last_update_ms(),
        call_requires(fetch, ()),
    ensures
        final(store).wf(),
        final(provider).spec_client_id() == old(provider).spec_client_id(),
        final(provider).spec_redirect_uri() == old(provider).spec_redirect_uri(),
        r matches Err(_) ==> final(store)@ == old(store)@,
        r matches Ok(url) ==> handle_wf(final(provider).spec_handle_view()) && exists|
            state: Seq<char>,
            nonce: Seq<char>,
            verifier: Seq<char>,
        |
            {
                &&& url@ == auth_url_spec(
                    final(provider).spec_handle_view(),
                    state,
                    nonce,
                    pkce_challenge_of(verifier),
                )
                &&& final(store)@ == old(store)@.insert(
                    state,
                    AuthStateView { nonce, pkce_verifier: verifier },
                )
            },
        !old(provider).spec_expired(now_ms) ==> *final(provider) == *old(provider) && (if
        handle_wf(old(provider).spec_handle_view()) {
            r matches Ok(_)
        } else {
            r == Err::<String, AuthError>(AuthError::Misconfiguration)
        }),
{
    match provider.client(now_ms, fetch) {
        Ok(client) => Ok(initiate(store, &client)),
        Err(e) => Err(e),
    }
}

/// The query parameters the redirect callback arrives with.  Only the
/// authorization code and the state are read; the issuer and session
/// state echoes are carried but unused.
pub struct AuthRedirectQuery {
    pub code: String,
    pub iss: String,
    pub session_state: String,
    pub state: String,
}

/// What the callback decides before any network traffic: either reject
/// the request outright, or exchange the authorization code at the token
/// endpoint with the stored PKCE verifier, verifying against the stored
/// nonce.
pub enum CompleteStep {
    Reject(AuthError),
    Exchange { code: String, pkce_verifier: String, nonce: String },
}

/// Begins the redirect callback: atomically consumes the pending record
/// for the query's state.  A state that was never issued, or was already
/// consumed, is rejected as `InvalidState` and no exchange — hence no
/// network call — takes place.  Otherwise the one exchange for this
/// login may proceed with the stored verifier and nonce.
pub fn auth_redirect_begin(store: &mut AuthStateStore, query: AuthRedirectQuery) -> (r:
    CompleteStep)
    requires
        old(store).wf(),
    ensures
        final(store).wf(),
        !old(store)@.contains_key(query.state@) ==> (r matches CompleteStep::Reject(
            AuthError::InvalidState,
        ) && final(store)@ == old(store)@),
        old(store)@.contains_key(query.state@) ==> (r matches CompleteStep::Exchange {
            code: c,
            pkce_verifier: v,
            nonce: n,
        } && c@ == query.code@ && v@ == old(store)@[query.state@].pkce_verifier && n@
            == old(store)@[query.state@].nonce && final(store)@ == old(store)@.remove(
            query.state@,
        )),
{
    match store.take(&query.state) {
        Some(auth_state) => CompleteStep::Exchange {
            code: query.code,
            pkce_verifier: auth_state.pkce_verifier,
            nonce: auth_state.nonce,
        },
        None => CompleteStep::Reject(AuthError::InvalidState),
    }
}

/// The access-token-hash check: the hash claimed in the identity token
/// and the hash recomputed over the returned access token with the
/// identity token's signing algorithm.
pub struct HashCheck {
    pub expected: String,
    pub actual: String,
}

/// The outcome of the token exchange and identity-token verification the
/// caller performed for an `Exchange` step.
pub enum TokenExchangeEvent {
    /// The token endpoint could not be reached or rejected the exchange.
    TransportFailed,
    /// The response carried no identity token.
    MissingIdToken,
    /// Signature, issuer, audience, expiry or nonce verification failed.
    ClaimsRejected,
    /// The claims carry an access-token hash but it could not be
    /// recomputed (no usable signing algorithm).
    HashUnavailable,
    /// The identity token verified against the stored nonce.  When its
    /// claims carry an access-token hash, both hashes are reported.
    Verified { id_token: String, access_token_hash: Option<HashCheck> },
}

/// Finishes the redirect callback: classifies the exchange outcome.  A
/// verified identity token whose access-token-hash claim, if present,
/// matches the recomputed hash becomes the credential — the serialized
/// identity token itself.  A mismatching hash is token substitution and
/// fails with `AccessTokenMismatch`; every failure leaves no residual
/// state and no credential.
pub fn auth_redirect_finish(ev: TokenExchangeEvent) -> (r: Result<String, AuthError>)
    ensures
        ev matches TokenExchangeEvent::TransportFailed ==> r == Err::<String, AuthError>(
            AuthError::TokenExchangeFailed,
        ),
        ev matches TokenExchangeEvent::MissingIdToken ==> r == Err::<String, AuthError>(
            AuthError::MissingIdToken,
        ),
        ev matches TokenExchangeEvent::ClaimsRejected ==> r == Err::<String, AuthError>(
            AuthError::InvalidIdToken,
        ),
        ev matches TokenExchangeEvent::HashUnavailable ==> r == Err::<String, AuthError>(
            AuthError::InvalidIdToken,
        ),
        ev matches TokenExchangeEvent::Verified { id_token, access_token_hash: Some(hc) } ==> (
        if hc.expected@ == hc.actual@ {
            r matches Ok(c) && c@ == id_token@
        } else {
            r == Err::<String, AuthError>(AuthError::AccessTokenMismatch)
        }),
        ev matches TokenExchangeEvent::Verified { id_token, access_token_hash: None } ==> (
        r matches Ok(c) && c@ == id_token@),
{
    match ev {
        TokenExchangeEvent::TransportFailed => Err(AuthError::TokenExchangeFailed),
        TokenExchangeEvent::MissingIdToken => Err(AuthError::MissingIdToken),
        TokenExchangeEvent::ClaimsRejected => Err(AuthError::InvalidIdToken),
        TokenExchangeEvent::HashUnavailable => Err(AuthError::InvalidIdToken),
        TokenExchangeEvent::Verified { id_token, access_token_hash } => match access_token_hash {
            Some(hc) => {
                if hc.expected == hc.actual {
                    Ok(id_token)
                } else {
                    Err(AuthError::AccessTokenMismatch)
                }
            },
            None => Ok(id_token),
        },
    }
}

/// The sequence `needle` stands in `hay` at position `at`.
pub open spec fn occurs_at(hay: Seq<char>, needle: Seq<char>, at: int) -> bool {
    &&& 0 <= at
    &&& at + needle.len() <= hay.len()
    &&& hay.subrange(at, at + needle.len()) == needle
}

/// The sequence `needle` stands somewhere in `hay`.
pub open spec fn occurs_in(hay: Seq<char>, needle: Seq<char>) -> bool {
    exists|at: int| occurs_at(hay, needle, at)
}

proof fn lemma_occurs_at_append(a: Seq<char>, b: Seq<char>, needle: Seq<char>, at: int)
    requires
        occurs_at(a, needle, at),
    ensures
        occurs_at(a + b, needle, at),
{
    assert((a + b).subrange(at, at + needle.len()) =~= a.subrange(at, at + needle.len()));
}

/// Every authorization URL asks for an authorization code with the
/// `openid` and `profile` scopes: `response_type=code` and the scope
/// tokens stand in it, whatever the endpoint, identity and tokens are.
pub proof fn lemma_auth_url_requests_code_with_scopes(
    h: OidcClientHandleView,
    state: Seq<char>,
    nonce: Seq<char>,
    challenge: Seq<char>,
)
    ensures
        occurs_in(auth_url_spec(h, state, nonce, challenge), "response_type=code"@),
        occurs_in(auth_url_spec(h, state, nonce, challenge), "openid"@),
        occurs_in(auth_url_spec(h, state, nonce, challenge), "profile"@),
{
    reveal_strlit("response_type=code");
    reveal_strlit("?response_type=code&client_id=");
    reveal_strlit("openid");
    reveal_strlit("profile");
    reveal_strlit("&scope=openid%20profile");
    let ep = h.config.authorization_endpoint;
    let p1 = ep + "?response_type=code&client_id="@;
    let p2 = p1 + encoded(h.client_id);
    let p3 = p2 + "&redirect_uri="@;
    let p4 = p3 + encoded(h.redirect_uri);
    let p5 = p4 + "&scope=openid%20profile"@;
    let p6 = p5 + "&state="@;
    let p7 = p6 + encoded(state);
    let p8 = p7 + "&nonce="@;
    let p9 = p8 + encoded(nonce);
    let p10 = p9 + "&code_challenge="@;
    let p11 = p10 + encoded(challenge);
    let u = p11 + "&code_challenge_method=S256"@;
    assert(u == auth_url_spec(h, state, nonce, challenge));

    let at_code = ep.len() as int + 1;
    assert(occurs_at(p1, "response_type=code"@, at_code)) by {
        assert(p1.subrange(at_code, at_code + 18) =~= "response_type=code"@);
    }
    lemma_occurs_at_append(p1, encoded(h.client_id), "response_type=code"@, at_code);
    lemma_occurs_at_append(p2, "&redirect_uri="@, "response_type=code"@, at_code);
    lemma_occurs_at_append(p3, encoded(h.redirect_uri), "response_type=code"@, at_code);
    lemma_occurs_at_append(p4, "&scope=openid%20profile"@, "response_type=code"@, at_code);

    let at_openid = p4.len() as int + 7;
    assert(occurs_at(p5, "openid"@, at_openid)) by {
        assert(p5.subrange(at_openid, at_openid + 6) =~= "openid"@);
    }
    let at_profile = p4.len() as int + 16;
    assert(occurs_at(p5, "profile"@, at_profile)) by {
        assert(p5.subrange(at_profile, at_profile + 7) =~= "profile"@);
    }
    lemma_occurs_at_append(p5, "&state="@, "response_type=code"@, at_code);
    lemma_occurs_at_append(p5, "&state="@, "openid"@, at_openid);
    lemma_occurs_at_append(p5, "&state="@, "profile"@, at_profile);
    lemma_occurs_at_append(p6, encoded(state), "response_type=code"@, at_code);
    lemma_occurs_at_append(p6, encoded(state), "openid"@, at_openid);
    lemma_occurs_at_append(p6, encoded(state), "profile"@, at_profile);
    lemma_occurs_at_append(p7, "&nonce="@, "response_type=code"@, at_code);
    lemma_occurs_at_append(p7, "&nonce="@, "openid"@, at_openid);
    lemma_occurs_at_append(p7, "&nonce="@, "profile"@, at_profile);
    lemma_occurs_at_append(p8, encoded(nonce), "response_type=code"@, at_code);
    lemma_occurs_at_append(p8, encoded(nonce), "openid"@, at_openid);
    lemma_occurs_at_append(p8, encoded(nonce), "profile"@, at_profile);
    lemma_occurs_at_append(p9, "&code_challenge="@, "response_type=code"@, at_code);
    lemma_occurs_at_append(p9, "&code_challenge="@, "openid"@, at_openid);
    lemma_occurs_at_append(p9, "&code_challenge="@, "profile"@, at_profile);
    lemma_occurs_at_append(p10, encoded(challenge), "response_type=code"@, at_code);
    lemma_occurs_at_append(p10, encoded(challenge), "openid"@, at_openid);
    lemma_occurs_at_append(p10, encoded(challenge), "profile"@, at_profile);
    lemma_occurs_at_append(p11, "&code_challenge_method=S256"@, "response_type=code"@, at_code);
    lemma_occurs_at_append(p11, "&code_challenge_method=S256"@, "openid"@, at_openid);
    lemma_occurs_at_append(p11, "&code_challenge_method=S256"@, "profile"@, at_profile);
}

} // verus!
