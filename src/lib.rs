//! A native OAuth 2.0 authorization-code client with PKCE: login requests,
//! callback validation, token bookkeeping and session state.

pub mod pkce;
pub mod error;
pub mod provider;
pub mod authorize;
pub mod token;
pub mod callback;
pub mod clock;
pub mod session;
pub mod store;
pub mod guarantees;
pub mod deeplink;
pub mod presence;
