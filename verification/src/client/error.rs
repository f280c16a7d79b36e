//! Client errors.

use vstd::prelude::*;

use url::ParseError as UrlParseError;

use crate::client::response::{spec_parse_error_message, ParseError};
use crate::error::{spec_oauth2_error_message, OAuth2Error};

verus! {

#[verifier::external_type_specification]
#[verifier::external_body]
pub struct ExUrlParseError(UrlParseError);

/// Errors that can occur during authorization, all surfaced to the caller:
/// transport failures stay with the transport; everything the library itself
/// decides is one of these.
#[derive(Debug)]
pub enum ClientError {
    /// URL error: the configured endpoint URI is malformed.
    Url(UrlParseError),
    /// JSON error: the response body is not valid JSON.
    Json(serde_json::Error),
    /// Response parse error: the response is valid JSON but does not have the
    /// expected token shape.
    Parse(ParseError),
    /// OAuth 2.0 error: a well-formed error response from the provider.
    OAuth2(OAuth2Error),
}

impl ClientError {
    /// A human-readable description of the error. For URL and JSON errors the
    /// text is whatever the underlying library prints.
    pub fn message(&self) -> (r: String)
        ensures
            (self matches ClientError::Parse(e) ==> r@ == spec_parse_error_message(e@)),
            (self matches ClientError::OAuth2(e) ==> r@ == spec_oauth2_error_message(e@)),
    {
        match self {
            ClientError::Url(e) => e.to_string(),
            ClientError::Json(e) => e.to_string(),
            ClientError::Parse(e) => e.message(),
            ClientError::OAuth2(e) => e.message(),
        }
    }
}

impl From<UrlParseError> for ClientError {
    fn from(err: UrlParseError) -> (r: Self) {
        ClientError::Url(err)
    }
}

impl vstd::std_specs::convert::FromSpecImpl<UrlParseError> for ClientError {
    open spec fn obeys_from_spec() -> bool {
        true
    }

    open spec fn from_spec(err: UrlParseError) -> Self {
        ClientError::Url(err)
    }
}

impl From<serde_json::Error> for ClientError {
    fn from(err: serde_json::Error) -> (r: Self) {
        ClientError::Json(err)
    }
}

impl vstd::std_specs::convert::FromSpecImpl<serde_json::Error> for ClientError {
    open spec fn obeys_from_spec() -> bool {
        true
    }

    open spec fn from_spec(err: serde_json::Error) -> Self {
        ClientError::Json(err)
    }
}

impl From<ParseError> for ClientError {
    fn from(err: ParseError) -> (r: Self) {
        ClientError::Parse(err)
    }
}

impl vstd::std_specs::convert::FromSpecImpl<ParseError> for ClientError {
    open spec fn obeys_from_spec() -> bool {
        true
    }

    open spec fn from_spec(err: ParseError) -> Self {
        ClientError::Parse(err)
    }
}

impl From<OAuth2Error> for ClientError {
    fn from(err: OAuth2Error) -> (r: Self) {
        ClientError::OAuth2(err)
    }
}

impl vstd::std_specs::convert::FromSpecImpl<OAuth2Error> for ClientError {
    open spec fn obeys_from_spec() -> bool {
        true
    }

    open spec fn from_spec(err: OAuth2Error) -> Self {
        ClientError::OAuth2(err)
    }
}

} // verus!
