//! Google OAuth 2.0 providers.

use vstd::prelude::*;

use crate::provider::Provider;
use crate::token::{Bearer, Expiring, Refresh};

verus! {

/// Signals the server to return the authorization code by prompting the user
/// to copy and paste it.
pub const REDIRECT_URI_OOB: &'static str = "urn:ietf:wg:oauth:2.0:oob";

/// Signals the server to return the authorization code in the page title.
pub const REDIRECT_URI_OOB_AUTO: &'static str = "urn:ietf:wg:oauth:2.0:oob:auto";

/// Google OAuth 2.0 provider for web applications.
#[derive(Debug, Clone, Copy, PartialEq, Eq)]
pub struct Web;

impl Provider for Web {
    type Lifetime = Expiring;

    type Token = Bearer<Expiring>;

    open spec fn spec_auth_uri(&self) -> Seq<char> {
        "https://accounts.google.com/o/oauth2/v2/auth"@
    }

    open spec fn spec_token_uri(&self) -> Seq<char> {
        "https://www.googleapis.com/oauth2/v4/token"@
    }

    open spec fn spec_credentials_in_body(&self) -> bool {
        false
    }

    fn auth_uri(&self) -> (r: &str) {
        "https://accounts.google.com/o/oauth2/v2/auth"
    }

    fn token_uri(&self) -> (r: &str) {
        "https://www.googleapis.com/oauth2/v4/token"
    }

    fn credentials_in_body(&self) -> (r: bool) {
        false
    }
}

/// Google OAuth 2.0 provider for installed applications.
#[derive(Debug, Clone, Copy, PartialEq, Eq)]
pub struct Installed;

impl Provider for Installed {
    type Lifetime = Refresh;

    type Token = Bearer<Refresh>;

    open spec fn spec_auth_uri(&self) -> Seq<char> {
        "https://accounts.google.com/o/oauth2/v2/auth"@
    }

    open spec fn spec_token_uri(&self) -> Seq<char> {
        "https://www.googleapis.com/oauth2/v4/token"@
    }

    open spec fn spec_credentials_in_body(&self) -> bool {
        false
    }

    fn auth_uri(&self) -> (r: &str) {
        "https://accounts.google.com/o/oauth2/v2/auth"
    }

    fn token_uri(&self) -> (r: &str) {
        "https://www.googleapis.com/oauth2/v4/token"
    }

    fn credentials_in_body(&self) -> (r: bool) {
        false
    }
}

} // verus!
