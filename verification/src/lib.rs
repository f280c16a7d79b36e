//! An OAuth 2.0 client library: authorization request URIs, authorization-code
//! exchange, token refresh, and strict parsing of provider token responses
//! following RFC 6749.
//!
//! The library is organised around three ideas:
//!
//! - a token is a bearer credential together with a *lifetime* (`Static`,
//!   `Expiring`, or `Refresh`), each with its own parsing rules;
//! - a *provider* fixes the two endpoint URIs and which lifetime it issues;
//! - the client builds requests and interprets responses as pure functions,
//!   so the HTTP transport stays outside and is handed plain values.

pub mod client;
pub mod error;
pub mod json;
pub mod provider;
pub mod token;

mod clock;

pub use client::Client;
pub use client::ClientError;
pub use token::Lifetime;
pub use token::Token;
