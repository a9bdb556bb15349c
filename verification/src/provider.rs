//! Provider configuration and the cached client it yields.
//!
//! Discovery — fetching the provider's metadata over the network — is the
//! caller's transport operation; it hands the fetched configuration in as
//! plain values.  This module validates those values into a ready client
//! handle and caches the configuration so repeated logins do not pay a
//! discovery round trip, refreshing it at most once per time-to-live
//! window.

use vstd::prelude::*;
use vstd::utf8::is_ascii_chars;

use crate::cache::Cached;
use crate::errors::AuthError;
use crate::external::parses_as_url;
use crate::external::url_parses;

verus! {

/// The part of the provider's discovery document this flow reads.
/// Immutable once fetched; replaced wholesale on refresh.
pub struct ProviderConfiguration {
    pub issuer: String,
    pub authorization_endpoint: String,
    pub token_endpoint: String,
}

/// The mathematical content of a [`ProviderConfiguration`].
pub ghost struct ProviderConfigurationView {
    pub issuer: Seq<char>,
    pub authorization_endpoint: Seq<char>,
    pub token_endpoint: Seq<char>,
}

impl View for ProviderConfiguration {
    type V = ProviderConfigurationView;

    open spec fn view(&self) -> ProviderConfigurationView {
        ProviderConfigurationView {
            issuer: self.issuer@,
            authorization_endpoint: self.authorization_endpoint@,
            token_endpoint: self.token_endpoint@,
        }
    }
}

impl Clone for ProviderConfiguration {
    fn clone(&self) -> (r: Self)
        ensures
            r@ == self@,
    {
        ProviderConfiguration {
            issuer: self.issuer.clone(),
            authorization_endpoint: self.authorization_endpoint.clone(),
            token_endpoint: self.token_endpoint.clone(),
        }
    }
}

/// A ready-to-use client: a validated configuration plus the static
/// client identity.  Immutable; shared read-only across requests.
pub struct OidcClientHandle {
    pub config: ProviderConfiguration,
    pub client_id: String,
    pub redirect_uri: String,
}

/// The mathematical content of an [`OidcClientHandle`].
pub ghost struct OidcClientHandleView {
    pub config: ProviderConfigurationView,
    pub client_id: Seq<char>,
    pub redirect_uri: Seq<char>,
}

impl View for OidcClientHandle {
    type V = OidcClientHandleView;

    open spec fn view(&self) -> OidcClientHandleView {
        OidcClientHandleView {
            config: self.config@,
            client_id: self.client_id@,
            redirect_uri: self.redirect_uri@,
        }
    }
}

impl Clone for OidcClientHandle {
    fn clone(&self) -> (r: Self)
        ensures
            r@ == self@,
    {
        OidcClientHandle {
            config: self.config.clone(),
            client_id: self.client_id.clone(),
            redirect_uri: self.redirect_uri.clone(),
        }
    }
}

/// A configuration and client identity that make a usable client: every
/// part is ASCII and every URL in it parses as one.
pub open spec fn client_input_valid(
    config: ProviderConfigurationView,
    client_id: Seq<char>,
    redirect_uri: Seq<char>,
) -> bool {
    &&& is_ascii_chars(config.issuer)
    &&& is_ascii_chars(config.authorization_endpoint)
    &&& is_ascii_chars(config.token_endpoint)
    &&& is_ascii_chars(client_id)
    &&& is_ascii_chars(redirect_uri)
    &&& parses_as_url(config.issuer)
    &&& parses_as_url(config.authorization_endpoint)
    &&& parses_as_url(config.token_endpoint)
    &&& parses_as_url(redirect_uri)
}

/// What holds of every handle [`oidc_client`] returns.
pub open spec fn handle_wf(h: OidcClientHandleView) -> bool {
    client_input_valid(h.config, h.client_id, h.redirect_uri)
}

/// Builds the client handle from a fetched configuration and the static
/// client identity, rejecting a malformed issuer, endpoint or redirect
/// URL as a configuration error (fatal at startup, never served around).
pub fn oidc_client(config: ProviderConfiguration, client_id: String, redirect_uri: String) -> (r:
    Result<OidcClientHandle, AuthError>)
    ensures
        client_input_valid(config@, client_id@, redirect_uri@) ==> (r matches Ok(h) && h@
            == (OidcClientHandleView {
            config: config@,
            client_id: client_id@,
            redirect_uri: redirect_uri@,
        })),
        !client_input_valid(config@, client_id@, redirect_uri@) ==> r == Err::<
            OidcClientHandle,
            AuthError,
        >(AuthError::Misconfiguration),
        r matches Ok(h) ==> handle_wf(h@),
{
    let ok = config.issuer.is_ascii() && config.authorization_endpoint.is_ascii()
        && config.token_endpoint.is_ascii() && client_id.is_ascii() && redirect_uri.is_ascii()
        && url_parses(config.issuer.as_str()) && url_parses(
        config.authorization_endpoint.as_str(),
    ) && url_parses(config.token_endpoint.as_str()) && url_parses(redirect_uri.as_str());
    if ok {
        Ok(OidcClientHandle { config, client_id, redirect_uri })
    } else {
        Err(AuthError::Misconfiguration)
    }
}

/// Serves a ready client, fetching the provider configuration at most
/// once per time-to-live window.
pub struct OidcClientProvider {
    cache: Cached<ProviderConfiguration>,
    client_id: String,
    redirect_uri: String,
}

impl OidcClientProvider {
    /// The configuration currently cached.
    pub closed spec fn spec_config(self) -> ProviderConfiguration {
        self.cache.spec_value()
    }

    pub closed spec fn spec_client_id(self) -> String {
        self.client_id
    }

    pub closed spec fn spec_redirect_uri(self) -> String {
        self.redirect_uri
    }

    pub closed spec fn spec_last_update_ms(self) -> u64 {
        self.cache.spec_last_update_ms()
    }

    /// Whether a `client` call at `now_ms` would fetch the configuration
    /// anew first.
    pub closed spec fn spec_expired(self, now_ms: u64) -> bool {
        self.cache.spec_expired(now_ms)
    }

    /// The handle a `client` call yields from the cached configuration.
    pub open spec fn spec_handle_view(self) -> OidcClientHandleView {
        OidcClientHandleView {
            config: self.spec_config()@,
            client_id: self.spec_client_id()@,
            redirect_uri: self.spec_redirect_uri()@,
        }
    }

    /// Builds the provider from the outcome of the discovery performed at
    /// construction time; if that discovery failed, construction fails
    /// with the same error.
    pub fn new(
        fetched: Result<ProviderConfiguration, AuthError>,
        client_id: String,
        redirect_uri: String,
        now_ms: u64,
        expiry_ms: u64,
    ) -> (r: Result<OidcClientProvider, AuthError>)
        ensures
            match r {
                Ok(p) => fetched matches Ok(c) && p.spec_config() == c && p.spec_client_id()
                    == client_id && p.spec_redirect_uri() == redirect_uri
                    && p.spec_last_update_ms() == now_ms,
                Err(e) => fetched matches Err(e0) && e == e0,
            },
    {
        match Cached::new(fetched, now_ms, expiry_ms) {
            Ok(cache) => Ok(OidcClientProvider { cache, client_id, redirect_uri }),
            Err(e) => Err(e),
        }
    }

    /// Returns a ready client, fetching the provider configuration first
    /// when the cached one's age exceeds the time-to-live.  Within the
    /// window the handle is built from the identical cached
    /// configuration, so two calls in one window return equal handles.
    /// A fetch failure propagates with the cache unchanged; a fetched or
    /// cached configuration that does not validate is a configuration
    /// error.
    pub fn client<F: FnOnce() -> Result<ProviderConfiguration, AuthError>>(
        &mut self,
        now_ms: u64,
        fetch: F,
    ) -> (r: Result<OidcClientHandle, AuthError>)
        requires
            now_ms >= old(self).spec_last_update_ms(),
            call_requires(fetch, ()),
        ensures
            final(self).spec_client_id() == old(self).spec_client_id(),
            final(self).spec_redirect_uri() == old(self).spec_redirect_uri(),
            r matches Ok(h) ==> h@ == final(self).spec_handle_view() && handle_wf(h@),
            !old(self).spec_expired(now_ms) ==> *final(self) == *old(self) && (if handle_wf(
                old(self).spec_handle_view(),
            ) {
                r matches Ok(h) && h@ == old(self).spec_handle_view()
            } else {
                r == Err::<OidcClientHandle, AuthError>(AuthError::Misconfiguration)
            }),
            old(self).spec_expired(now_ms) ==> match r {
                Ok(h) => call_ensures(fetch, (), Ok(final(self).spec_config()))
                    && final(self).spec_last_update_ms() == now_ms,
                Err(e) => (e == AuthError::Misconfiguration && call_ensures(
                    fetch,
                    (),
                    Ok(final(self).spec_config()),
                )) || (call_ensures(fetch, (), Err(e)) && *final(self) == *old(self)),
            },
    {
        match self.cache.get(now_ms, fetch) {
            Ok(config) => oidc_client(config, self.client_id.clone(), self.redirect_uri.clone()),
            Err(e) => Err(e),
        }
    }
}

/// Two `client` calls within one time-to-live window yield clients built
/// from the identical cached configuration: the contract of `client` pins
/// each unexpired read's handle to the provider's cached state, which an
/// unexpired read leaves unchanged, so the two handles are equal.
pub proof fn lemma_client_idempotent_within_window(
    p: OidcClientProvider,
    now1: u64,
    now2: u64,
    h1: OidcClientHandleView,
    h2: OidcClientHandleView,
)
    requires
        !p.spec_expired(now1),
        !p.spec_expired(now2),
        h1 == p.spec_handle_view(),
        h2 == p.spec_handle_view(),
    ensures
        h1 == h2,
        h1.config == p.spec_config()@,
{
}

} // verus!
