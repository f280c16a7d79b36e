//! The refreshable expiring lifetime.

use vstd::prelude::*;

use crate::client::response::{FromResponse, ParseError, ParseErrorView};
use crate::json::{json_int, json_str, Json, JsonField, JsonFieldView, JsonView};
use crate::token::expiring::{compute_expiry, expiry_at};
use crate::token::{Lifetime, Persist};

verus! {

/// An expiring token lifetime which can be refreshed. A response for this
/// lifetime must carry a string `refresh_token` and an integer `expires_in`;
/// when parsed inheriting from a previous lifetime, `refresh_token` may be
/// absent and is then carried forward from the previous one.
#[derive(Debug, Clone, PartialEq, Eq)]
pub struct Refresh {
    /// The refresh token.
    pub refresh_token: String,
    /// The expiry time of the access token, as seconds since the Unix epoch.
    pub expires: i64,
}

/// The mathematical value of a `Refresh`.
pub struct RefreshView {
    pub refresh_token: Seq<char>,
    pub expires: i64,
}

impl View for Refresh {
    type V = RefreshView;

    open spec fn view(&self) -> RefreshView {
        RefreshView { refresh_token: self.refresh_token@, expires: self.expires }
    }
}

impl Refresh {
    /// Returns the refresh token.
    pub fn refresh_token(&self) -> (r: &str)
        ensures
            r@ == self.refresh_token@,
    {
        self.refresh_token.as_str()
    }

    /// Returns the expiry time of the access token, as seconds since the Unix
    /// epoch.
    pub fn expires(&self) -> (r: i64)
        ensures
            r == self.expires,
    {
        self.expires
    }
}

impl Lifetime for Refresh {
    open spec fn spec_expired_at(&self, now: i64) -> bool {
        self.expires < now
    }

    fn expired_at(&self, now: i64) -> (r: bool) {
        self.expires < now
    }
}

impl FromResponse for Refresh {
    open spec fn spec_from_response(j: JsonView, now: i64) -> Result<RefreshView, ParseErrorView> {
        if !(j is Object) {
            Err(ParseErrorView::ExpectedType("object"@))
        } else {
            match json_str(j, "refresh_token"@) {
                None => Err(ParseErrorView::ExpectedFieldType("refresh_token"@, "string"@)),
                Some(rt) => match json_int(j, "expires_in"@) {
                    None => Err(ParseErrorView::ExpectedFieldType("expires_in"@, "i64"@)),
                    Some(n) => Ok(RefreshView { refresh_token: rt, expires: expiry_at(now, n) }),
                },
            }
        }
    }

    open spec fn spec_from_response_inherit(j: JsonView, prev: RefreshView, now: i64) -> Result<
        RefreshView,
        ParseErrorView,
    > {
        if !(j is Object) {
            Err(ParseErrorView::ExpectedType("object"@))
        } else {
            let rt = match json_str(j, "refresh_token"@) {
                Some(rt) => rt,
                None => prev.refresh_token,
            };
            match json_int(j, "expires_in"@) {
                None => Err(ParseErrorView::ExpectedFieldType("expires_in"@, "i64"@)),
                Some(n) => Ok(RefreshView { refresh_token: rt, expires: expiry_at(now, n) }),
            }
        }
    }

    fn from_response_at(json: &Json, now: i64) -> (r: Result<Refresh, ParseError>) {
        if !json.is_object() {
            return Err(ParseError::ExpectedType("object"));
        }
        let rt: String = match json.get_str("refresh_token") {
            None => {
                return Err(ParseError::ExpectedFieldType("refresh_token", "string"));
            },
            Some(s) => s.to_owned(),
        };
        match json.get_i64("expires_in") {
            None => Err(ParseError::ExpectedFieldType("expires_in", "i64")),
            Some(n) => Ok(Refresh { refresh_token: rt, expires: compute_expiry(now, n) }),
        }
    }

    fn from_response_inherit_at(json: &Json, prev: &Refresh, now: i64) -> (r: Result<
        Refresh,
        ParseError,
    >) {
        if !json.is_object() {
            return Err(ParseError::ExpectedType("object"));
        }
        let rt: String = match json.get_str("refresh_token") {
            None => prev.refresh_token.clone(),
            Some(s) => s.to_owned(),
        };
        match json.get_i64("expires_in") {
            None => Err(ParseError::ExpectedFieldType("expires_in", "i64")),
            Some(n) => Ok(Refresh { refresh_token: rt, expires: compute_expiry(now, n) }),
        }
    }
}

impl Persist for Refresh {
    open spec fn spec_persist_fields(v: RefreshView) -> Seq<(Seq<char>, JsonFieldView)> {
        seq![
            ("refresh_token"@, JsonFieldView::Str(v.refresh_token)),
            ("expires"@, JsonFieldView::Int(v.expires)),
        ]
    }

    open spec fn spec_from_persisted(j: JsonView) -> Result<RefreshView, ParseErrorView> {
        if !(j is Object) {
            Err(ParseErrorView::ExpectedType("object"@))
        } else {
            match json_str(j, "refresh_token"@) {
                None => Err(ParseErrorView::ExpectedFieldType("refresh_token"@, "string"@)),
                Some(rt) => match json_int(j, "expires"@) {
                    None => Err(ParseErrorView::ExpectedFieldType("expires"@, "i64"@)),
                    Some(t) => Ok(RefreshView { refresh_token: rt, expires: t }),
                },
            }
        }
    }

    fn persist_fields(&self) -> (r: Vec<(String, JsonField)>) {
        let mut r: Vec<(String, JsonField)> = Vec::new();
        r.push(("refresh_token".to_owned(), JsonField::Str(self.refresh_token.clone())));
        r.push(("expires".to_owned(), JsonField::Int(self.expires)));
        assert(crate::json::fields_view(r@) =~= Refresh::spec_persist_fields(self@));
        r
    }

    fn from_persisted(j: &Json) -> (r: Result<Refresh, ParseError>) {
        if !j.is_object() {
            return Err(ParseError::ExpectedType("object"));
        }
        let rt: String = match j.get_str("refresh_token") {
            None => {
                return Err(ParseError::ExpectedFieldType("refresh_token", "string"));
            },
            Some(s) => s.to_owned(),
        };
        match j.get_i64("expires") {
            None => Err(ParseError::ExpectedFieldType("expires", "i64")),
            Some(t) => Ok(Refresh { refresh_token: rt, expires: t }),
        }
    }
}

/// A refresh response that omits `refresh_token` (or carries it with a
/// non-string value) inherits the previous refresh token unchanged, while the
/// expiry is always recomputed from the response's `expires_in`.
pub proof fn lemma_refresh_inherit(j: JsonView, prev: RefreshView, now: i64, n: i64)
    requires
        j is Object,
        json_str(j, "refresh_token"@) is None,
        json_int(j, "expires_in"@) == Some(n),
    ensures
        Refresh::spec_from_response_inherit(j, prev, now) == Ok::<RefreshView, ParseErrorView>(
            RefreshView { refresh_token: prev.refresh_token, expires: expiry_at(now, n) },
        ),
{
}

/// Inheriting never drops a refresh token: whatever the response, an accepted
/// inherited parse carries either the response's own refresh token or the
/// previous one.
pub proof fn lemma_refresh_never_dropped(j: JsonView, prev: RefreshView, now: i64)
    ensures
        Refresh::spec_from_response_inherit(j, prev, now) matches Ok(l) ==> l.refresh_token
            == prev.refresh_token || json_str(j, "refresh_token"@) == Some(l.refresh_token),
{
}

} // verus!
