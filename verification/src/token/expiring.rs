//! The expiring lifetime.

use vstd::prelude::*;

use crate::client::response::{FromResponse, ParseError, ParseErrorView};
use crate::json::{json_has, json_int, Json, JsonField, JsonFieldView, JsonView};
use crate::token::{Lifetime, Persist};

verus! {

/// The expiry computed from the clock and a relative `expires_in`: their sum,
/// saturated at the ends of the `i64` range.
pub open spec fn expiry_at(now: i64, expires_in: i64) -> i64 {
    if now + expires_in > i64::MAX {
        i64::MAX
    } else if now + expires_in < i64::MIN {
        i64::MIN
    } else {
        (now + expires_in) as i64
    }
}

/// Computes `expiry_at(now, expires_in)`.
pub(crate) fn compute_expiry(now: i64, expires_in: i64) -> (r: i64)
    ensures
        r == expiry_at(now, expires_in),
{
    match now.checked_add(expires_in) {
        Some(t) => t,
        None => if expires_in >= 0 {
            i64::MAX
        } else {
            i64::MIN
        },
    }
}

/// An expiring token lifetime: the token is valid until `expires` and cannot
/// be refreshed by this library. A response for this lifetime must carry an
/// integer `expires_in` and must not carry a `refresh_token` field.
#[derive(Debug, Clone, Copy, PartialEq, Eq)]
pub struct Expiring {
    /// The expiry time of the access token, as seconds since the Unix epoch.
    pub expires: i64,
}

impl View for Expiring {
    type V = Expiring;

    open spec fn view(&self) -> Expiring {
        *self
    }
}

impl Expiring {
    /// Returns the expiry time of the access token, as seconds since the Unix
    /// epoch.
    pub fn expires(&self) -> (r: i64)
        ensures
            r == self.expires,
    {
        self.expires
    }
}

impl Lifetime for Expiring {
    open spec fn spec_expired_at(&self, now: i64) -> bool {
        self.expires < now
    }

    fn expired_at(&self, now: i64) -> (r: bool) {
        self.expires < now
    }
}

impl FromResponse for Expiring {
    open spec fn spec_from_response(j: JsonView, now: i64) -> Result<Expiring, ParseErrorView> {
        if !(j is Object) {
            Err(ParseErrorView::ExpectedType("object"@))
        } else if json_has(j, "refresh_token"@) {
            Err(ParseErrorView::UnexpectedField("refresh_token"@))
        } else {
            match json_int(j, "expires_in"@) {
                None => Err(ParseErrorView::ExpectedFieldType("expires_in"@, "i64"@)),
                Some(n) => Ok(Expiring { expires: expiry_at(now, n) }),
            }
        }
    }

    open spec fn spec_from_response_inherit(j: JsonView, prev: Expiring, now: i64) -> Result<
        Expiring,
        ParseErrorView,
    > {
        Expiring::spec_from_response(j, now)
    }

    fn from_response_at(json: &Json, now: i64) -> (r: Result<Expiring, ParseError>) {
        if !json.is_object() {
            return Err(ParseError::ExpectedType("object"));
        }
        if json.has("refresh_token") {
            return Err(ParseError::UnexpectedField("refresh_token"));
        }
        match json.get_i64("expires_in") {
            None => Err(ParseError::ExpectedFieldType("expires_in", "i64")),
            Some(n) => Ok(Expiring { expires: compute_expiry(now, n) }),
        }
    }

    fn from_response_inherit_at(json: &Json, prev: &Expiring, now: i64) -> (r: Result<
        Expiring,
        ParseError,
    >) {
        Expiring::from_response_at(json, now)
    }
}

impl Persist for Expiring {
    open spec fn spec_persist_fields(v: Expiring) -> Seq<(Seq<char>, JsonFieldView)> {
        seq![("expires"@, JsonFieldView::Int(v.expires))]
    }

    open spec fn spec_from_persisted(j: JsonView) -> Result<Expiring, ParseErrorView> {
        if !(j is Object) {
            Err(ParseErrorView::ExpectedType("object"@))
        } else {
            match json_int(j, "expires"@) {
                None => Err(ParseErrorView::ExpectedFieldType("expires"@, "i64"@)),
                Some(t) => Ok(Expiring { expires: t }),
            }
        }
    }

    fn persist_fields(&self) -> (r: Vec<(String, JsonField)>) {
        let mut r: Vec<(String, JsonField)> = Vec::new();
        r.push(("expires".to_owned(), JsonField::Int(self.expires)));
        assert(crate::json::fields_view(r@) =~= Expiring::spec_persist_fields(self@));
        r
    }

    fn from_persisted(j: &Json) -> (r: Result<Expiring, ParseError>) {
        if !j.is_object() {
            return Err(ParseError::ExpectedType("object"));
        }
        match j.get_i64("expires") {
            None => Err(ParseError::ExpectedFieldType("expires", "i64")),
            Some(t) => Ok(Expiring { expires: t }),
        }
    }
}

/// For an expiring response `{"expires_in": N}` with `N > 0`, the parsed
/// expiry lies in `(now, now + N]`: the token is not already expired, and the
/// expiry is no later than `N` seconds from now. (When the sum leaves the
/// `i64` range the expiry saturates, which stays within that interval as long
/// as the clock itself is below `i64::MAX`.)
pub proof fn lemma_expiring_bounds(j: JsonView, now: i64, n: i64)
    requires
        j is Object,
        !json_has(j, "refresh_token"@),
        json_int(j, "expires_in"@) == Some(n),
        n > 0,
        now < i64::MAX,
    ensures
        Expiring::spec_from_response(j, now) matches Ok(l) && now < l.expires && l.expires <= now
            + n,
{
}

} // verus!
