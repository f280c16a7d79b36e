//! Errors.

use vstd::prelude::*;

use crate::client::response::{FromResponse, ParseError, ParseErrorView};
use crate::json::{json_str, str_eq, Json, JsonView};

verus! {

/// OAuth 2.0 error codes.
///
/// See RFC 6749, section 5.2.
#[derive(Debug, Clone, PartialEq, Eq)]
pub enum OAuth2ErrorCode {
    /// The request is missing a required parameter, includes an unsupported
    /// parameter value, repeats a parameter, includes multiple credentials,
    /// utilizes more than one mechanism for authenticating the client, or is
    /// otherwise malformed.
    InvalidRequest,
    /// Client authentication failed.
    InvalidClient,
    /// The provided authorization grant or refresh token is invalid, expired,
    /// revoked, does not match the redirection URI used in the authorization
    /// request, or was issued to another client.
    InvalidGrant,
    /// The authenticated client is not authorized to use this authorization
    /// grant type.
    UnauthorizedClient,
    /// The authorization grant type is not supported by the authorization
    /// server.
    UnsupportedGrantType,
    /// The requested scope is invalid, unknown, malformed, or exceeds the
    /// scope granted by the resource owner.
    InvalidScope,
    /// An unrecognized error code, not defined in RFC 6749, preserved as it
    /// appeared on the wire.
    Unrecognized(String),
}

/// The mathematical value of an `OAuth2ErrorCode`.
pub enum OAuth2ErrorCodeView {
    InvalidRequest,
    InvalidClient,
    InvalidGrant,
    UnauthorizedClient,
    UnsupportedGrantType,
    InvalidScope,
    Unrecognized(Seq<char>),
}

impl View for OAuth2ErrorCode {
    type V = OAuth2ErrorCodeView;

    open spec fn view(&self) -> OAuth2ErrorCodeView {
        match *self {
            OAuth2ErrorCode::InvalidRequest => OAuth2ErrorCodeView::InvalidRequest,
            OAuth2ErrorCode::InvalidClient => OAuth2ErrorCodeView::InvalidClient,
            OAuth2ErrorCode::InvalidGrant => OAuth2ErrorCodeView::InvalidGrant,
            OAuth2ErrorCode::UnauthorizedClient => OAuth2ErrorCodeView::UnauthorizedClient,
            OAuth2ErrorCode::UnsupportedGrantType => OAuth2ErrorCodeView::UnsupportedGrantType,
            OAuth2ErrorCode::InvalidScope => OAuth2ErrorCodeView::InvalidScope,
            OAuth2ErrorCode::Unrecognized(s) => OAuth2ErrorCodeView::Unrecognized(s@),
        }
    }
}

/// The code that a wire `error` string names: one of the six codes of RFC
/// 6749, section 5.2, or `Unrecognized` carrying the string itself.
pub open spec fn spec_code_from(s: Seq<char>) -> OAuth2ErrorCodeView {
    if s == "invalid_request"@ {
        OAuth2ErrorCodeView::InvalidRequest
    } else if s == "invalid_client"@ {
        OAuth2ErrorCodeView::InvalidClient
    } else if s == "invalid_grant"@ {
        OAuth2ErrorCodeView::InvalidGrant
    } else if s == "unauthorized_client"@ {
        OAuth2ErrorCodeView::UnauthorizedClient
    } else if s == "unsupported_grant_type"@ {
        OAuth2ErrorCodeView::UnsupportedGrantType
    } else if s == "invalid_scope"@ {
        OAuth2ErrorCodeView::InvalidScope
    } else {
        OAuth2ErrorCodeView::Unrecognized(s)
    }
}

/// The wire string that a code prints as: the RFC 6749 code string, or the
/// preserved original text of an unrecognized code.
pub open spec fn spec_code_str(v: OAuth2ErrorCodeView) -> Seq<char> {
    match v {
        OAuth2ErrorCodeView::InvalidRequest => "invalid_request"@,
        OAuth2ErrorCodeView::InvalidClient => "invalid_client"@,
        OAuth2ErrorCodeView::InvalidGrant => "invalid_grant"@,
        OAuth2ErrorCodeView::UnauthorizedClient => "unauthorized_client"@,
        OAuth2ErrorCodeView::UnsupportedGrantType => "unsupported_grant_type"@,
        OAuth2ErrorCodeView::InvalidScope => "invalid_scope"@,
        OAuth2ErrorCodeView::Unrecognized(s) => s,
    }
}

impl OAuth2ErrorCode {
    /// The code that a wire `error` string names.
    pub fn from_code(s: &str) -> (r: OAuth2ErrorCode)
        ensures
            r@ == spec_code_from(s@),
    {
        if str_eq(s, "invalid_request") {
            OAuth2ErrorCode::InvalidRequest
        } else if str_eq(s, "invalid_client") {
            OAuth2ErrorCode::InvalidClient
        } else if str_eq(s, "invalid_grant") {
            OAuth2ErrorCode::InvalidGrant
        } else if str_eq(s, "unauthorized_client") {
            OAuth2ErrorCode::UnauthorizedClient
        } else if str_eq(s, "unsupported_grant_type") {
            OAuth2ErrorCode::UnsupportedGrantType
        } else if str_eq(s, "invalid_scope") {
            OAuth2ErrorCode::InvalidScope
        } else {
            OAuth2ErrorCode::Unrecognized(s.to_owned())
        }
    }

    /// The wire string the code stands for.
    pub fn code_str(&self) -> (r: &str)
        ensures
            r@ == spec_code_str(self@),
    {
        match self {
            OAuth2ErrorCode::InvalidRequest => "invalid_request",
            OAuth2ErrorCode::InvalidClient => "invalid_client",
            OAuth2ErrorCode::InvalidGrant => "invalid_grant",
            OAuth2ErrorCode::UnauthorizedClient => "unauthorized_client",
            OAuth2ErrorCode::UnsupportedGrantType => "unsupported_grant_type",
            OAuth2ErrorCode::InvalidScope => "invalid_scope",
            OAuth2ErrorCode::Unrecognized(s) => s.as_str(),
        }
    }
}

/// An OAuth 2.0 error response.
///
/// See RFC 6749, section 5.2.
#[derive(Debug, Clone, PartialEq, Eq)]
pub struct OAuth2Error {
    /// The error code.
    pub code: OAuth2ErrorCode,
    /// Human-readable text providing additional information about the error.
    pub description: Option<String>,
    /// A URI identifying a human-readable web page with information about the
    /// error.
    pub uri: Option<String>,
}

/// The mathematical value of an `OAuth2Error`.
pub struct OAuth2ErrorView {
    pub code: OAuth2ErrorCodeView,
    pub description: Option<Seq<char>>,
    pub uri: Option<Seq<char>>,
}

impl View for OAuth2Error {
    type V = OAuth2ErrorView;

    open spec fn view(&self) -> OAuth2ErrorView {
        OAuth2ErrorView {
            code: self.code@,
            description: match self.description {
                Some(s) => Some(s@),
                None => None,
            },
            uri: match self.uri {
                Some(s) => Some(s@),
                None => None,
            },
        }
    }
}

/// The message that an OAuth 2.0 error prints as: the code string, then the
/// description and help URI when present.
pub open spec fn spec_oauth2_error_message(v: OAuth2ErrorView) -> Seq<char> {
    spec_code_str(v.code) + (match v.description {
        Some(d) => ": "@ + d,
        None => Seq::<char>::empty(),
    }) + (match v.uri {
        Some(u) => " ("@ + u + ")"@,
        None => Seq::<char>::empty(),
    })
}

/// What reading a response as an OAuth 2.0 error returns: the object must
/// carry a string `error` field; `error_description` and `error_uri` are kept
/// when present as strings.
pub open spec fn spec_oauth2_error_of(j: JsonView) -> Result<OAuth2ErrorView, ParseErrorView> {
    if !(j is Object) {
        Err(ParseErrorView::ExpectedType("object"@))
    } else {
        match json_str(j, "error"@) {
            None => Err(ParseErrorView::ExpectedFieldType("error"@, "string"@)),
            Some(c) => Ok(
                OAuth2ErrorView {
                    code: spec_code_from(c),
                    description: json_str(j, "error_description"@),
                    uri: json_str(j, "error_uri"@),
                },
            ),
        }
    }
}

impl FromResponse for OAuth2Error {
    open spec fn spec_from_response(j: JsonView, now: i64) -> Result<
        OAuth2ErrorView,
        ParseErrorView,
    > {
        spec_oauth2_error_of(j)
    }

    open spec fn spec_from_response_inherit(j: JsonView, prev: OAuth2ErrorView, now: i64) -> Result<
        OAuth2ErrorView,
        ParseErrorView,
    > {
        spec_oauth2_error_of(j)
    }

    fn from_response_at(json: &Json, now: i64) -> (r: Result<OAuth2Error, ParseError>) {
        OAuth2Error::read(json)
    }

    fn from_response_inherit_at(json: &Json, prev: &OAuth2Error, now: i64) -> (r: Result<
        OAuth2Error,
        ParseError,
    >) {
        OAuth2Error::read(json)
    }
}

impl OAuth2Error {
    /// Reads a response as an OAuth 2.0 error.
    pub(crate) fn read(json: &Json) -> (r: Result<OAuth2Error, ParseError>)
        ensures
            (r matches Ok(t) ==> spec_oauth2_error_of(json@) == Ok::<
                OAuth2ErrorView,
                ParseErrorView,
            >(t@)),
            (r matches Err(e) ==> spec_oauth2_error_of(json@) == Err::<
                OAuth2ErrorView,
                ParseErrorView,
            >(e@)),
    {
        if !json.is_object() {
            return Err(ParseError::ExpectedType("object"));
        }
        let code = match json.get_str("error") {
            None => {
                return Err(ParseError::ExpectedFieldType("error", "string"));
            },
            Some(c) => OAuth2ErrorCode::from_code(c),
        };
        let description: Option<String> = match json.get_str("error_description") {
            Some(s) => Some(s.to_owned()),
            None => None,
        };
        let uri: Option<String> = match json.get_str("error_uri") {
            Some(s) => Some(s.to_owned()),
            None => None,
        };
        Ok(OAuth2Error { code: code, description: description, uri: uri })
    }

    /// A human-readable description of the error: the code string, then the
    /// description and help URI when present.
    pub fn message(&self) -> (r: String)
        ensures
            r@ == spec_oauth2_error_message(self@),
    {
        let mut s: String = self.code.code_str().to_owned();
        match &self.description {
            Some(d) => {
                s.append(": ");
                s.append(d.as_str());
            },
            None => (),
        }
        match &self.uri {
            Some(u) => {
                s.append(" (");
                s.append(u.as_str());
                s.append(")");
            },
            None => (),
        }
        s
    }
}

} // verus!
