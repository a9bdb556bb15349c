use nimble_auth::errors::AuthError;
use nimble_auth::flow::{
    auth_login, auth_redirect_begin, auth_redirect_finish, initiate, AuthRedirectQuery,
    CompleteStep, HashCheck, TokenExchangeEvent,
};
use nimble_auth::provider::{oidc_client, OidcClientHandle, OidcClientProvider, ProviderConfiguration};
use nimble_auth::store::AuthStateStore;

fn configuration() -> ProviderConfiguration {
    ProviderConfiguration {
        issuer: "https://auth.example.test/realms/kmc".to_string(),
        authorization_endpoint: "https://auth.example.test/realms/kmc/protocol/openid-connect/auth"
            .to_string(),
        token_endpoint: "https://auth.example.test/realms/kmc/protocol/openid-connect/token"
            .to_string(),
    }
}

fn client_handle() -> OidcClientHandle {
    oidc_client(
        configuration(),
        "nimble".to_string(),
        "http://localhost:3000/api/auth/redirect".to_string(),
    )
    .expect("valid configuration must yield a client")
}

fn query_param<'a>(url: &'a str, name: &str) -> Option<&'a str> {
    let query = url.split_once('?')?.1;
    query
        .split('&')
        .find_map(|pair| pair.strip_prefix(name).and_then(|rest| rest.strip_prefix('=')))
}

#[test]
fn oidc_client_rejects_malformed_urls() {
    let got = oidc_client(
        configuration(),
        "nimble".to_string(),
        "not a url".to_string(),
    );
    assert_eq!(got.err(), Some(AuthError::Misconfiguration));

    let mut config = configuration();
    config.issuer = "::: nonsense :::".to_string();
    let got = oidc_client(
        config,
        "nimble".to_string(),
        "http://localhost:3000/api/auth/redirect".to_string(),
    );
    assert_eq!(got.err(), Some(AuthError::Misconfiguration));
}

#[test]
fn initiate_builds_authorization_url_and_stores_pending_record() {
    let mut store = AuthStateStore::new();
    let client = client_handle();
    let url = initiate(&mut store, &client);

    assert!(url.starts_with(
        "https://auth.example.test/realms/kmc/protocol/openid-connect/auth?response_type=code"
    ));
    assert_eq!(query_param(&url, "response_type"), Some("code"));
    assert_eq!(query_param(&url, "client_id"), Some("nimble"));
    assert_eq!(query_param(&url, "scope"), Some("openid%20profile"));
    let scope = query_param(&url, "scope").unwrap();
    assert!(scope.contains("openid") && scope.contains("profile"));
    assert_eq!(query_param(&url, "code_challenge_method"), Some("S256"));
    assert_eq!(
        query_param(&url, "redirect_uri"),
        Some("http%3A%2F%2Flocalhost%3A3000%2Fapi%2Fauth%2Fredirect")
    );

    let state = query_param(&url, "state").expect("a state parameter is present");
    let nonce = query_param(&url, "nonce").expect("a nonce parameter is present");
    let challenge = query_param(&url, "code_challenge").expect("a challenge is present");
    assert!(!state.is_empty());

    // The pending record is retrievable exactly once under the state.
    assert_eq!(store.len(), 1);
    let record = store
        .take(&state.to_string())
        .expect("the record is stored under the state parameter");
    assert_eq!(record.nonce, nonce, "the stored nonce is the one in the URL");
    assert!(store.take(&state.to_string()).is_none(), "a second take finds nothing");

    // The challenge is derived from the verifier, not the verifier itself.
    assert_ne!(record.pkce_verifier, challenge);
    assert_eq!(challenge.len(), 43, "base64url of a SHA-256 digest");
    assert_eq!(record.pkce_verifier.len(), 43, "base64url of 32 random octets");
}

#[test]
fn initiate_twice_yields_fresh_states() {
    let mut store = AuthStateStore::new();
    let client = client_handle();
    let url1 = initiate(&mut store, &client);
    let url2 = initiate(&mut store, &client);
    let s1 = query_param(&url1, "state").unwrap();
    let s2 = query_param(&url2, "state").unwrap();
    assert_ne!(s1, s2);
    assert_eq!(store.len(), 2);
}

#[test]
fn auth_login_uses_cached_configuration_within_window() {
    let mut store = AuthStateStore::new();
    let mut provider = OidcClientProvider::new(
        Ok(configuration()),
        "nimble".to_string(),
        "http://localhost:3000/api/auth/redirect".to_string(),
        0,
        60_000,
    )
    .expect("construction succeeds");

    let mut fetches: u32 = 0;
    let url = auth_login(&mut store, &mut provider, 10, || {
        fetches += 1;
        Err(AuthError::UpstreamUnavailable)
    })
    .expect("login within the window succeeds");
    assert_eq!(fetches, 0, "no discovery within the window");
    assert!(query_param(&url, "state").is_some());
    assert_eq!(store.len(), 1);
}

#[test]
fn auth_login_propagates_discovery_failure() {
    let mut store = AuthStateStore::new();
    let mut provider = OidcClientProvider::new(
        Ok(configuration()),
        "nimble".to_string(),
        "http://localhost:3000/api/auth/redirect".to_string(),
        0,
        100,
    )
    .expect("construction succeeds");

    let got = auth_login(&mut store, &mut provider, 200, || Err(AuthError::UpstreamUnavailable));
    assert_eq!(got.err(), Some(AuthError::UpstreamUnavailable));
    assert_eq!(store.len(), 0, "a failed login leaves no pending record");
}

fn plain_query(code: &str, state: &str) -> AuthRedirectQuery {
    AuthRedirectQuery {
        code: code.to_string(),
        iss: "https://auth.example.test/realms/kmc".to_string(),
        session_state: "session".to_string(),
        state: state.to_string(),
    }
}

#[test]
fn redirect_with_unknown_state_is_rejected_before_any_exchange() {
    let mut store = AuthStateStore::new();
    let step = auth_redirect_begin(&mut store, plain_query("code", "never-issued"));
    assert!(matches!(step, CompleteStep::Reject(AuthError::InvalidState)));
}

#[test]
fn redirect_with_issued_state_hands_out_the_stored_material() {
    let mut store = AuthStateStore::new();
    let client = client_handle();
    let url = initiate(&mut store, &client);
    let state = query_param(&url, "state").unwrap().to_string();

    let step = auth_redirect_begin(&mut store, plain_query("the-code", &state));
    match step {
        CompleteStep::Exchange { code, pkce_verifier, nonce } => {
            assert_eq!(code, "the-code");
            assert_eq!(Some(nonce.as_str()), query_param(&url, "nonce"));
            assert!(!pkce_verifier.is_empty());
        },
        CompleteStep::Reject(e) => panic!("issued state was rejected: {:?}", e),
    }

    // The state is consumed: replaying the callback is rejected.
    let step = auth_redirect_begin(&mut store, plain_query("the-code", &state));
    assert!(matches!(step, CompleteStep::Reject(AuthError::InvalidState)));
}

#[test]
fn finish_classifies_every_failure() {
    assert_eq!(
        auth_redirect_finish(TokenExchangeEvent::TransportFailed).err(),
        Some(AuthError::TokenExchangeFailed)
    );
    assert_eq!(
        auth_redirect_finish(TokenExchangeEvent::MissingIdToken).err(),
        Some(AuthError::MissingIdToken)
    );
    assert_eq!(
        auth_redirect_finish(TokenExchangeEvent::ClaimsRejected).err(),
        Some(AuthError::InvalidIdToken)
    );
    assert_eq!(
        auth_redirect_finish(TokenExchangeEvent::HashUnavailable).err(),
        Some(AuthError::InvalidIdToken)
    );
}

#[test]
fn finish_rejects_mismatching_access_token_hash() {
    let event = TokenExchangeEvent::Verified {
        id_token: "header.claims.signature".to_string(),
        access_token_hash: Some(HashCheck {
            expected: "expected-hash".to_string(),
            actual: "different-hash".to_string(),
        }),
    };
    let got = auth_redirect_finish(event);
    assert_eq!(got.err(), Some(AuthError::AccessTokenMismatch), "no credential is issued");
}

#[test]
fn finish_issues_credential_on_matching_hash() {
    let event = TokenExchangeEvent::Verified {
        id_token: "header.claims.signature".to_string(),
        access_token_hash: Some(HashCheck {
            expected: "same-hash".to_string(),
            actual: "same-hash".to_string(),
        }),
    };
    assert_eq!(auth_redirect_finish(event).ok().as_deref(), Some("header.claims.signature"));
}

#[test]
fn finish_issues_credential_without_hash_claim() {
    let event = TokenExchangeEvent::Verified {
        id_token: "header.claims.signature".to_string(),
        access_token_hash: None,
    };
    assert_eq!(auth_redirect_finish(event).ok().as_deref(), Some("header.claims.signature"));
}

#[test]
fn provider_client_is_idempotent_within_window() {
    let mut provider = OidcClientProvider::new(
        Ok(configuration()),
        "nimble".to_string(),
        "http://localhost:3000/api/auth/redirect".to_string(),
        0,
        60_000,
    )
    .expect("construction succeeds");

    let mut fetches: u32 = 0;
    let h1 = provider
        .client(100, || {
            fetches += 1;
            Err(AuthError::UpstreamUnavailable)
        })
        .expect("client within the window");
    let h2 = provider
        .client(200, || {
            fetches += 1;
            Err(AuthError::UpstreamUnavailable)
        })
        .expect("client within the window");
    assert_eq!(fetches, 0, "no discovery round trip within the window");
    assert_eq!(h1.config.issuer, h2.config.issuer);
    assert_eq!(h1.config.authorization_endpoint, h2.config.authorization_endpoint);
    assert_eq!(h1.config.token_endpoint, h2.config.token_endpoint);
    assert_eq!(h1.client_id, h2.client_id);
    assert_eq!(h1.redirect_uri, h2.redirect_uri);
}

#[test]
fn provider_refresh_replaces_configuration_past_window() {
    let mut provider = OidcClientProvider::new(
        Ok(configuration()),
        "nimble".to_string(),
        "http://localhost:3000/api/auth/redirect".to_string(),
        0,
        100,
    )
    .expect("construction succeeds");

    let mut fresh = configuration();
    fresh.authorization_endpoint =
        "https://auth.example.test/realms/kmc/protocol/openid-connect/auth2".to_string();
    let handle = provider.client(101, move || Ok(fresh)).expect("refresh succeeds");
    assert!(handle.config.authorization_endpoint.ends_with("auth2"));
}

#[test]
fn provider_construction_failure_propagates() {
    let got = OidcClientProvider::new(
        Err(AuthError::UpstreamUnavailable),
        "nimble".to_string(),
        "http://localhost:3000/api/auth/redirect".to_string(),
        0,
        100,
    );
    assert!(got.err() == Some(AuthError::UpstreamUnavailable));
}
