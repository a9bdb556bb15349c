//! An OpenID Connect authorization-code-with-PKCE login core.
//!
//! The crate provides the pieces of the flow that carry real invariants:
//! a time-expiring value cache (`Cached`), a one-time pending-authentication
//! store (`AuthStateStore`), a provider-configuration cache
//! (`OidcClientProvider`), the login-initiation and redirect-callback
//! decision logic, and a structural session check.  Network transport and
//! clock reads are performed by the caller and handed in as plain values.

pub mod cache;
pub mod errors;
pub mod flow;
pub mod graphql;
pub mod http;
pub mod provider;
pub mod session;
pub mod store;
pub mod urlenc;

mod external;
