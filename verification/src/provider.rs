//! Providers.
//!
//! A provider fixes the two OAuth 2.0 endpoint URIs, which lifetime and token
//! shape it issues, and whether it requires client credentials in the request
//! body. Well-known providers are predefined; other services are reached
//! through `Custom`.

use vstd::prelude::*;

use core::marker::PhantomData;

use crate::client::response::FromResponse;
use crate::token::{Bearer, Lifetime, Static, Token};

pub mod google;

verus! {

/// OAuth 2.0 providers.
pub trait Provider {
    /// The lifetime of tokens issued by the provider.
    type Lifetime: Lifetime + FromResponse;

    /// The type of token issued by the provider.
    type Token: Token<Self::Lifetime> + FromResponse;

    /// The authorization endpoint URI.
    spec fn spec_auth_uri(&self) -> Seq<char>;

    /// The token endpoint URI.
    spec fn spec_token_uri(&self) -> Seq<char>;

    /// Whether the provider requires `client_id` and `client_secret` in the
    /// request body.
    spec fn spec_credentials_in_body(&self) -> bool;

    /// The authorization endpoint URI.
    ///
    /// See RFC 6749, section 3.1.
    fn auth_uri(&self) -> (r: &str)
        ensures
            r@ == self.spec_auth_uri(),
    ;

    /// The token endpoint URI.
    ///
    /// See RFC 6749, section 3.2.
    fn token_uri(&self) -> (r: &str)
        ensures
            r@ == self.spec_token_uri(),
    ;

    /// Whether the provider requires client credentials via the request body.
    ///
    /// Although not recommended by the RFC, some providers require `client_id`
    /// and `client_secret` as part of the request body in addition to HTTP
    /// Basic authentication.
    ///
    /// See RFC 6749, section 2.3.1.
    fn credentials_in_body(&self) -> (r: bool)
        ensures
            r == self.spec_credentials_in_body(),
    ;
}

/// GitHub OAuth 2.0 provider.
#[derive(Debug, Clone, Copy, PartialEq, Eq)]
pub struct GitHub;

impl Provider for GitHub {
    type Lifetime = Static;

    type Token = Bearer<Static>;

    open spec fn spec_auth_uri(&self) -> Seq<char> {
        "https://github.com/login/oauth/authorize"@
    }

    open spec fn spec_token_uri(&self) -> Seq<char> {
        "https://github.com/login/oauth/access_token"@
    }

    open spec fn spec_credentials_in_body(&self) -> bool {
        false
    }

    fn auth_uri(&self) -> (r: &str) {
        "https://github.com/login/oauth/authorize"
    }

    fn token_uri(&self) -> (r: &str) {
        "https://github.com/login/oauth/access_token"
    }

    fn credentials_in_body(&self) -> (r: bool) {
        false
    }
}

/// Imgur OAuth 2.0 provider.
#[derive(Debug, Clone, Copy, PartialEq, Eq)]
pub struct Imgur;

impl Provider for Imgur {
    type Lifetime = crate::token::Refresh;

    type Token = Bearer<crate::token::Refresh>;

    open spec fn spec_auth_uri(&self) -> Seq<char> {
        "https://api.imgur.com/oauth2/authorize"@
    }

    open spec fn spec_token_uri(&self) -> Seq<char> {
        "https://api.imgur.com/oauth2/token"@
    }

    open spec fn spec_credentials_in_body(&self) -> bool {
        false
    }

    fn auth_uri(&self) -> (r: &str) {
        "https://api.imgur.com/oauth2/authorize"
    }

    fn token_uri(&self) -> (r: &str) {
        "https://api.imgur.com/oauth2/token"
    }

    fn credentials_in_body(&self) -> (r: bool) {
        false
    }
}

/// A user-defined provider issuing bearer tokens with lifetime `L`: an
/// endpoint pair and a body-placement policy for client credentials.
#[derive(Debug, PartialEq, Eq)]
pub struct Custom<L> {
    /// The authorization endpoint URI.
    pub auth_uri: String,
    /// The token endpoint URI.
    pub token_uri: String,
    /// Whether client credentials must appear in the request body.
    pub credentials_in_body: bool,
    /// Marks which lifetime the provider issues.
    pub lifetime: PhantomData<L>,
}

impl<L> Custom<L> {
    /// Creates a provider from its endpoint pair, with credentials sent by
    /// HTTP Basic authentication only.
    pub fn new(auth_uri: String, token_uri: String) -> (r: Custom<L>)
        ensures
            r.auth_uri@ == auth_uri@,
            r.token_uri@ == token_uri@,
            !r.credentials_in_body,
    {
        Custom {
            auth_uri: auth_uri,
            token_uri: token_uri,
            credentials_in_body: false,
            lifetime: PhantomData,
        }
    }
}

impl<L: Lifetime + FromResponse> Provider for Custom<L> {
    type Lifetime = L;

    type Token = Bearer<L>;

    open spec fn spec_auth_uri(&self) -> Seq<char> {
        self.auth_uri@
    }

    open spec fn spec_token_uri(&self) -> Seq<char> {
        self.token_uri@
    }

    open spec fn spec_credentials_in_body(&self) -> bool {
        self.credentials_in_body
    }

    fn auth_uri(&self) -> (r: &str) {
        self.auth_uri.as_str()
    }

    fn token_uri(&self) -> (r: &str) {
        self.token_uri.as_str()
    }

    fn credentials_in_body(&self) -> (r: bool) {
        self.credentials_in_body
    }
}

} // verus!
