//! The OAuth 2.0 client.
//!
//! Every operation here is a pure function from the client's configuration
//! and plain input values to plain output values. The HTTP transport is not
//! called from this crate: `token_request` and `refresh_request` describe the
//! POST to perform as a `TokenRequest`, and `interpret_token_response` /
//! `interpret_refresh_response` read the body that came back.

mod error;

pub mod response;

pub use error::ClientError;

use vstd::prelude::*;

use url::ParseError as UrlParseError;

use crate::client::response::{FromResponse, ParseError, ParseErrorView};
use crate::error::{spec_oauth2_error_of, OAuth2Error};
use crate::json::{json_of, Json, JsonView};
use crate::provider::Provider;
use crate::token::{Lifetime, Refresh, Token};
use vstd::string::StrSliceExecFns;

verus! {

/// The form-urlencoding of a piece of text: a name for what
/// `url::form_urlencoded::byte_serialize` yields on the text's UTF-8 bytes —
/// a function of the text alone.
pub uninterp spec fn form_encoded_of(s: Seq<char>) -> Seq<char>;

/// Relies on url::form_urlencoded::byte_serialize: percent-encodes the UTF-8
/// bytes of the text for the application/x-www-form-urlencoded format.
#[verifier::external_body]
fn form_encode(s: &str) -> (r: String)
    ensures
        r@ == form_encoded_of(s@),
{
    url::form_urlencoded::byte_serialize(s.as_bytes()).collect()
}

/// The serialization of a well-formed URI, if the text parses as one: a name
/// for what `url::Url::parse` returns — a function of the text alone.
pub uninterp spec fn url_normal_of(s: Seq<char>) -> Option<Seq<char>>;

/// Relies on url::Url::parse: validates a URI and returns its normalized
/// serialization.
#[verifier::external_body]
fn parse_url(s: &str) -> (r: Result<String, UrlParseError>)
    ensures
        (r matches Ok(u) ==> url_normal_of(s@) == Some(u@)),
        (r matches Err(_) <==> url_normal_of(s@) is None),
{
    match url::Url::parse(s) {
        Ok(u) => Ok(String::from(u)),
        Err(e) => Err(e),
    }
}

/// The form-urlencoded serialization of a list of query pairs: each name and
/// value encoded, joined as `name=value` with `&` between pairs.
pub open spec fn spec_query(pairs: Seq<(Seq<char>, Seq<char>)>) -> Seq<char>
    decreases pairs.len(),
{
    if pairs.len() == 0 {
        Seq::empty()
    } else {
        let unit = form_encoded_of(pairs.last().0) + "="@ + form_encoded_of(pairs.last().1);
        if pairs.len() == 1 {
            unit
        } else {
            spec_query(pairs.drop_last()) + "&"@ + unit
        }
    }
}

/// The mathematical value of a list of query pairs.
pub open spec fn pairs_view(pairs: Seq<(String, String)>) -> Seq<(Seq<char>, Seq<char>)> {
    pairs.map(|i: int, p: (String, String)| (p.0@, p.1@))
}

/// Serializes query pairs as a form-urlencoded string.
fn encode_query(pairs: &Vec<(String, String)>) -> (r: String)
    ensures
        r@ == spec_query(pairs_view(pairs@)),
{
    let ghost all = pairs_view(pairs@);
    let mut out = String::new();
    let mut i: usize = 0;
    assert(all.take(0) =~= Seq::empty());
    while i < pairs.len()
        invariant
            i <= pairs.len(),
            all == pairs_view(pairs@),
            out@ == spec_query(all.take(i as int)),
        decreases pairs.len() - i,
    {
        if i > 0 {
            out.append("&");
        }
        let k = form_encode(pairs[i].0.as_str());
        let v = form_encode(pairs[i].1.as_str());
        out.append(k.as_str());
        out.append("=");
        out.append(v.as_str());
        proof {
            let taken = all.take(i + 1 as int);
            assert(taken.drop_last() =~= all.take(i as int));
            assert(taken.last() == all[i as int]);
        }
        i = i + 1;
    }
    assert(all.take(pairs.len() as int) =~= all);
    out
}

/// Whether the text contains the character.
fn contains_char(s: &str, c: char) -> (r: bool)
    ensures
        r == s@.contains(c),
{
    let n = s.unicode_len();
    let mut i: usize = 0;
    while i < n
        invariant
            n == s@.len(),
            i <= n,
            forall|k: int| 0 <= k < i ==> s@[k] != c,
        decreases n - i,
    {
        if s.get_char(i) == c {
            assert(s@[i as int] == c);
            return true;
        }
        i = i + 1;
    }
    assert(forall|k: int| 0 <= k < s@.len() ==> s@[k] != c);
    false
}

/// A base URI with a query string attached: after `?`, or after `&` when the
/// base already has a query part.
pub open spec fn spec_with_query(base: Seq<char>, q: Seq<char>) -> Seq<char> {
    if base.contains('?') {
        base + "&"@ + q
    } else {
        base + "?"@ + q
    }
}

/// The mathematical value of an optional borrowed string.
pub open spec fn opt_view(o: Option<&str>) -> Option<Seq<char>> {
    match o {
        Some(s) => Some(s@),
        None => None,
    }
}

/// The query pairs of an authorization request, in order: `response_type`,
/// `client_id`, then `redirect_uri`, `scope` and `state` when present.
pub open spec fn spec_auth_pairs(
    client_id: Seq<char>,
    redirect_uri: Option<Seq<char>>,
    scope: Option<Seq<char>>,
    state: Option<Seq<char>>,
) -> Seq<(Seq<char>, Seq<char>)> {
    seq![("response_type"@, "code"@), ("client_id"@, client_id)] + (match redirect_uri {
        Some(u) => seq![("redirect_uri"@, u)],
        None => Seq::empty(),
    }) + (match scope {
        Some(s) => seq![("scope"@, s)],
        None => Seq::empty(),
    }) + (match state {
        Some(s) => seq![("state"@, s)],
        None => Seq::empty(),
    })
}

/// The body pairs of an authorization-code exchange, in order: `grant_type`,
/// `code`, then `redirect_uri` when the client has one, then the client
/// credentials when the provider wants them in the body.
pub open spec fn spec_token_request_pairs(
    client_id: Seq<char>,
    client_secret: Seq<char>,
    redirect_uri: Option<Seq<char>>,
    credentials_in_body: bool,
    code: Seq<char>,
) -> Seq<(Seq<char>, Seq<char>)> {
    seq![("grant_type"@, "authorization_code"@), ("code"@, code)] + (match redirect_uri {
        Some(u) => seq![("redirect_uri"@, u)],
        None => Seq::empty(),
    }) + (if credentials_in_body {
        seq![("client_id"@, client_id), ("client_secret"@, client_secret)]
    } else {
        Seq::empty()
    })
}

/// The body pairs of a refresh request, in order: `grant_type`,
/// `refresh_token`, then `scope` when given, then the client credentials when
/// the provider wants them in the body.
pub open spec fn spec_refresh_request_pairs(
    client_id: Seq<char>,
    client_secret: Seq<char>,
    credentials_in_body: bool,
    refresh_token: Seq<char>,
    scope: Option<Seq<char>>,
) -> Seq<(Seq<char>, Seq<char>)> {
    seq![("grant_type"@, "refresh_token"@), ("refresh_token"@, refresh_token)] + (match scope {
        Some(s) => seq![("scope"@, s)],
        None => Seq::empty(),
    }) + (if credentials_in_body {
        seq![("client_id"@, client_id), ("client_secret"@, client_secret)]
    } else {
        Seq::empty()
    })
}

/// A token-endpoint request, described as plain values: the URL to POST to,
/// the `application/x-www-form-urlencoded` body, and the client credentials
/// to send by HTTP Basic authentication. The transport performs it with an
/// `Accept: application/json` header and hands the response body back.
#[derive(Debug, Clone, PartialEq, Eq)]
pub struct TokenRequest {
    /// The token endpoint to POST to.
    pub url: String,
    /// The form-urlencoded request body.
    pub body: String,
    /// The client identifier, for HTTP Basic authentication.
    pub client_id: String,
    /// The client secret, for HTTP Basic authentication.
    pub client_secret: String,
}

/// Whether `r` is what interpreting a token response `j` at time `now` must
/// return, once the response is known not to be an OAuth 2.0 error: the
/// provider's token shape parsed exactly, or its parse error.
pub open spec fn spec_interpreted<T: FromResponse>(
    j: JsonView,
    now: i64,
    r: Result<T, ClientError>,
) -> bool {
    match r {
        Ok(t) => T::spec_from_response(j, now) == Ok::<T::V, ParseErrorView>(t@),
        Err(ClientError::Parse(pe)) => T::spec_from_response(j, now) == Err::<
            T::V,
            ParseErrorView,
        >(pe@),
        Err(_) => false,
    }
}

/// Like `spec_interpreted`, for the inheriting parse of a refresh response.
pub open spec fn spec_interpreted_inherit<T: FromResponse>(
    j: JsonView,
    prev: T::V,
    now: i64,
    r: Result<T, ClientError>,
) -> bool {
    match r {
        Ok(t) => T::spec_from_response_inherit(j, prev, now) == Ok::<T::V, ParseErrorView>(t@),
        Err(ClientError::Parse(pe)) => T::spec_from_response_inherit(j, prev, now) == Err::<
            T::V,
            ParseErrorView,
        >(pe@),
        Err(_) => false,
    }
}

/// An OAuth 2.0 client: a provider plus application credentials.
#[derive(Debug, Clone, PartialEq, Eq)]
pub struct Client<P> {
    /// The OAuth provider.
    pub provider: P,
    /// The client ID.
    pub client_id: String,
    /// The client secret.
    pub client_secret: String,
    /// The redirect URI, echoed identically in the authorization request and
    /// the token request.
    pub redirect_uri: Option<String>,
}

impl<P> Client<P> {
    /// The mathematical value of the redirect URI.
    pub open spec fn spec_redirect_uri(&self) -> Option<Seq<char>> {
        match self.redirect_uri {
            Some(u) => Some(u@),
            None => None,
        }
    }
}

impl<P: Provider> Client<P> {
    /// Creates a client.
    pub fn new(
        provider: P,
        client_id: String,
        client_secret: String,
        redirect_uri: Option<String>,
    ) -> (r: Client<P>)
        ensures
            r.provider == provider,
            r.client_id == client_id,
            r.client_secret == client_secret,
            r.redirect_uri == redirect_uri,
    {
        Client {
            provider: provider,
            client_id: client_id,
            client_secret: client_secret,
            redirect_uri: redirect_uri,
        }
    }

    /// Returns an authorization endpoint URI to direct the user to: the
    /// provider's authorization endpoint with `response_type=code`,
    /// `client_id`, and the optional `redirect_uri`, `scope` and `state`
    /// appended as form-urlencoded query parameters, in that order.
    ///
    /// Fails only if the provider's configured endpoint URI is malformed.
    ///
    /// See RFC 6749, section 3.1.
    pub fn auth_uri(&self, scope: Option<&str>, state: Option<&str>) -> (r: Result<
        String,
        ClientError,
    >)
        ensures
            (r matches Err(e) ==> url_normal_of(self.provider.spec_auth_uri()) is None
                && e is Url),
            (r matches Ok(u) ==> url_normal_of(self.provider.spec_auth_uri()) matches Some(base)
                && u@ == spec_with_query(
                base,
                spec_query(
                    spec_auth_pairs(
                        self.client_id@,
                        self.spec_redirect_uri(),
                        opt_view(scope),
                        opt_view(state),
                    ),
                ),
            )),
            (url_normal_of(self.provider.spec_auth_uri()) is Some ==> r is Ok),
    {
        let base = match parse_url(self.provider.auth_uri()) {
            Err(e) => {
                return Err(ClientError::Url(e));
            },
            Ok(u) => u,
        };
        let mut pairs: Vec<(String, String)> = Vec::new();
        pairs.push(("response_type".to_owned(), "code".to_owned()));
        pairs.push(("client_id".to_owned(), self.client_id.clone()));
        match &self.redirect_uri {
            Some(u) => pairs.push(("redirect_uri".to_owned(), u.clone())),
            None => (),
        }
        match scope {
            Some(s) => pairs.push(("scope".to_owned(), s.to_owned())),
            None => (),
        }
        match state {
            Some(s) => pairs.push(("state".to_owned(), s.to_owned())),
            None => (),
        }
        assert(pairs_view(pairs@) =~= spec_auth_pairs(
            self.client_id@,
            self.spec_redirect_uri(),
            opt_view(scope),
            opt_view(state),
        ));
        let q = encode_query(&pairs);
        let has_query = contains_char(base.as_str(), '?');
        let mut out = base;
        if has_query {
            out.append("&");
        } else {
            out.append("?");
        }
        out.append(q.as_str());
        Ok(out)
    }

    /// Describes the authorization-code exchange: a POST to the provider's
    /// token endpoint with `grant_type=authorization_code`, the code, the
    /// client's `redirect_uri` when it has one, and — when the provider wants
    /// credentials in the body — `client_id` and `client_secret`.
    ///
    /// See RFC 6749, section 4.1.3.
    pub fn token_request(&self, code: &str) -> (r: TokenRequest)
        ensures
            r.url@ == self.provider.spec_token_uri(),
            r.body@ == spec_query(
                spec_token_request_pairs(
                    self.client_id@,
                    self.client_secret@,
                    self.spec_redirect_uri(),
                    self.provider.spec_credentials_in_body(),
                    code@,
                ),
            ),
            r.client_id == self.client_id,
            r.client_secret == self.client_secret,
    {
        let mut pairs: Vec<(String, String)> = Vec::new();
        pairs.push(("grant_type".to_owned(), "authorization_code".to_owned()));
        pairs.push(("code".to_owned(), code.to_owned()));
        match &self.redirect_uri {
            Some(u) => pairs.push(("redirect_uri".to_owned(), u.clone())),
            None => (),
        }
        if self.provider.credentials_in_body() {
            pairs.push(("client_id".to_owned(), self.client_id.clone()));
            pairs.push(("client_secret".to_owned(), self.client_secret.clone()));
        }
        assert(pairs_view(pairs@) =~= spec_token_request_pairs(
            self.client_id@,
            self.client_secret@,
            self.spec_redirect_uri(),
            self.provider.spec_credentials_in_body(),
            code@,
        ));
        TokenRequest {
            url: self.provider.token_uri().to_owned(),
            body: encode_query(&pairs),
            client_id: self.client_id.clone(),
            client_secret: self.client_secret.clone(),
        }
    }

    /// Describes a refresh request: a POST to the provider's token endpoint
    /// with `grant_type=refresh_token`, the refresh token, the optional
    /// `scope`, and — when the provider wants credentials in the body —
    /// `client_id` and `client_secret`.
    ///
    /// See RFC 6749, section 6.
    pub fn refresh_request(&self, refresh_token: &str, scope: Option<&str>) -> (r: TokenRequest)
        ensures
            r.url@ == self.provider.spec_token_uri(),
            r.body@ == spec_query(
                spec_refresh_request_pairs(
                    self.client_id@,
                    self.client_secret@,
                    self.provider.spec_credentials_in_body(),
                    refresh_token@,
                    opt_view(scope),
                ),
            ),
            r.client_id == self.client_id,
            r.client_secret == self.client_secret,
    {
        let mut pairs: Vec<(String, String)> = Vec::new();
        pairs.push(("grant_type".to_owned(), "refresh_token".to_owned()));
        pairs.push(("refresh_token".to_owned(), refresh_token.to_owned()));
        match scope {
            Some(s) => pairs.push(("scope".to_owned(), s.to_owned())),
            None => (),
        }
        if self.provider.credentials_in_body() {
            pairs.push(("client_id".to_owned(), self.client_id.clone()));
            pairs.push(("client_secret".to_owned(), self.client_secret.clone()));
        }
        assert(pairs_view(pairs@) =~= spec_refresh_request_pairs(
            self.client_id@,
            self.client_secret@,
            self.provider.spec_credentials_in_body(),
            refresh_token@,
            opt_view(scope),
        ));
        TokenRequest {
            url: self.provider.token_uri().to_owned(),
            body: encode_query(&pairs),
            client_id: self.client_id.clone(),
            client_secret: self.client_secret.clone(),
        }
    }

    /// Interprets a token-endpoint response body, after an authorization-code
    /// exchange: if the body is not valid JSON that is a JSON error; if it is
    /// a well-formed OAuth 2.0 error response, that error is conclusive; only
    /// otherwise is it read as the provider's token shape.
    pub fn interpret_token_response(&self, body: &str) -> (r: Result<P::Token, ClientError>)
        ensures
            ((json_of(body@) is None) <==> (r matches Err(e) && e is Json)),
            (json_of(body@) matches Some(j) ==> {
                &&& (spec_oauth2_error_of(j) matches Ok(ev) ==> r matches Err(e) && (
                e matches ClientError::OAuth2(oe) && oe@ == ev))
                &&& (spec_oauth2_error_of(j) is Err ==> exists|now: i64|
                    #[trigger] spec_interpreted::<P::Token>(j, now, r))
            }),
    {
        let json = match Json::parse(body) {
            Err(e) => {
                return Err(ClientError::Json(e));
            },
            Ok(j) => j,
        };
        match OAuth2Error::read(&json) {
            Ok(err) => Err(ClientError::OAuth2(err)),
            Err(_) => {
                let now = crate::clock::now_seconds();
                let r: Result<P::Token, ClientError> = match P::Token::from_response_at(
                    &json,
                    now,
                ) {
                    Ok(t) => Ok(t),
                    Err(pe) => Err(ClientError::Parse(pe)),
                };
                assert(spec_interpreted::<P::Token>(json@, now, r));
                r
            },
        }
    }
}

/// What `ensure_token_action` decided: either the token is still valid and is
/// kept unchanged, with no request to perform, or it has expired and the
/// accompanying request refreshes it.
#[derive(Debug)]
pub enum EnsureAction<T> {
    /// The token is still valid; no request is performed.
    Keep(T),
    /// The token has expired: perform the request, then interpret the
    /// response with `interpret_refresh_response` against the accompanying
    /// token.
    Refresh(TokenRequest, T),
}

impl<P> Client<P> where P: Provider, P::Token: Token<Refresh> {
    /// Interprets a token-endpoint response body after a refresh request,
    /// parsing in the inheriting form against the token being refreshed: the
    /// same error handling as `interpret_token_response`, and an omitted
    /// `refresh_token` in the response is carried forward from `prev`.
    pub fn interpret_refresh_response(&self, body: &str, prev: &P::Token) -> (r: Result<
        P::Token,
        ClientError,
    >)
        ensures
            ((json_of(body@) is None) <==> (r matches Err(e) && e is Json)),
            (json_of(body@) matches Some(j) ==> {
                &&& (spec_oauth2_error_of(j) matches Ok(ev) ==> r matches Err(e) && (
                e matches ClientError::OAuth2(oe) && oe@ == ev))
                &&& (spec_oauth2_error_of(j) is Err ==> exists|now: i64|
                    #[trigger] spec_interpreted_inherit::<P::Token>(j, prev@, now, r))
            }),
    {
        let json = match Json::parse(body) {
            Err(e) => {
                return Err(ClientError::Json(e));
            },
            Ok(j) => j,
        };
        match OAuth2Error::read(&json) {
            Ok(err) => Err(ClientError::OAuth2(err)),
            Err(_) => {
                let now = crate::clock::now_seconds();
                let r: Result<P::Token, ClientError> = match P::Token::from_response_inherit_at(
                    &json,
                    prev,
                    now,
                ) {
                    Ok(t) => Ok(t),
                    Err(pe) => Err(ClientError::Parse(pe)),
                };
                assert(spec_interpreted_inherit::<P::Token>(json@, prev@, now, r));
                r
            },
        }
    }

    /// Decides whether a token needs refreshing, with the clock read as
    /// `now`: a token that has not expired is kept unchanged and no request
    /// is issued; an expired one comes back with the refresh request to
    /// perform, built from its own refresh token and no scope override.
    pub fn ensure_token_action_at(&self, token: P::Token, now: i64) -> (r: EnsureAction<P::Token>)
        ensures
            (!token.spec_lifetime().spec_expired_at(now) ==> r == EnsureAction::Keep(token)),
            (token.spec_lifetime().spec_expired_at(now) ==> (r matches EnsureAction::Refresh(
                req,
                t,
            ) && t == token && req.url@ == self.provider.spec_token_uri() && req.body@
                == spec_query(
                spec_refresh_request_pairs(
                    self.client_id@,
                    self.client_secret@,
                    self.provider.spec_credentials_in_body(),
                    token.spec_lifetime().refresh_token@,
                    None,
                ),
            ) && req.client_id == self.client_id && req.client_secret == self.client_secret)),
    {
        if token.lifetime().expired_at(now) {
            let req = self.refresh_request(token.lifetime().refresh_token(), None);
            EnsureAction::Refresh(req, token)
        } else {
            EnsureAction::Keep(token)
        }
    }

    /// Decides whether a token needs refreshing, reading the clock.
    pub fn ensure_token_action(&self, token: P::Token) -> (r: EnsureAction<P::Token>)
        ensures
            exists|now: i64|
                {
                    &&& (!(#[trigger] token.spec_lifetime().spec_expired_at(now)) ==> r
                        == EnsureAction::Keep(token))
                    &&& (token.spec_lifetime().spec_expired_at(now) ==> (r
                        matches EnsureAction::Refresh(req, t) && t == token && req.url@
                        == self.provider.spec_token_uri() && req.body@ == spec_query(
                        spec_refresh_request_pairs(
                            self.client_id@,
                            self.client_secret@,
                            self.provider.spec_credentials_in_body(),
                            token.spec_lifetime().refresh_token@,
                            None,
                        ),
                    ) && req.client_id == self.client_id && req.client_secret
                        == self.client_secret))
                },
    {
        let now = crate::clock::now_seconds();
        self.ensure_token_action_at(token, now)
    }
}

} // verus!
