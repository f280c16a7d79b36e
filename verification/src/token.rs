//! Tokens.
//!
//! Access token types are abstracted through the `Token` trait; expiring and
//! non-expiring lifetimes through the `Lifetime` trait. Tokens and lifetimes
//! can also be encoded to a persisted form and restored from it, through the
//! `Persist` trait.

use vstd::prelude::*;

use crate::json::{fields_view, Json, JsonField, JsonFieldView, JsonView};
use crate::client::response::{ParseError, ParseErrorView};

mod bearer;
mod expiring;
mod laws;
mod refresh;
mod statik;

pub use laws::lemma_bearer_expiring_persist_round_trip;
pub use laws::lemma_bearer_refresh_persist_round_trip;
pub use laws::lemma_bearer_static_persist_round_trip;
pub use laws::lemma_expiring_persist_round_trip;
pub use laws::lemma_lifetime_shape_mismatch;
pub use laws::lemma_parse_ignores_unknown_fields;
pub use laws::lemma_refresh_persist_round_trip;
pub use laws::lemma_static_persist_round_trip;
pub use laws::spec_expiring_shaped;
pub use laws::spec_refresh_shaped;
pub use laws::spec_static_shaped;
pub use bearer::lemma_is_bearer_spellings;
pub use bearer::lemma_token_type_decides;
pub use bearer::spec_bearer_fields;
pub use bearer::spec_is_bearer;
pub use bearer::Bearer;
pub use bearer::BearerView;
pub use expiring::expiry_at;
pub use expiring::lemma_expiring_bounds;
pub use expiring::Expiring;
pub use refresh::lemma_refresh_inherit;
pub use refresh::lemma_refresh_never_dropped;
pub use refresh::Refresh;
pub use refresh::RefreshView;
pub use statik::lemma_static_response;
pub use statik::Static;

verus! {

/// OAuth 2.0 token lifetimes: how long a token stays valid, as a function of
/// the clock.
pub trait Lifetime: View + Sized {
    /// Whether the token is no longer valid when the clock reads `now`.
    spec fn spec_expired_at(&self, now: i64) -> bool;

    /// Returns true if the token is no longer valid when the clock reads
    /// `now`.
    fn expired_at(&self, now: i64) -> (r: bool)
        ensures
            r == self.spec_expired_at(now),
    ;

    /// Returns true if the token is no longer valid, reading the clock.
    fn expired(&self) -> (r: bool)
        ensures
            exists|now: i64| r == #[trigger] self.spec_expired_at(now),
    {
        let now = crate::clock::now_seconds();
        let r = self.expired_at(now);
        assert(r == self.spec_expired_at(now));
        r
    }
}

/// OAuth 2.0 tokens: an access token, an optional scope, and a lifetime.
pub trait Token<L: Lifetime>: View {
    /// The access token.
    spec fn spec_access_token(&self) -> Seq<char>;

    /// The scope, if any.
    spec fn spec_scope(&self) -> Option<Seq<char>>;

    /// The lifetime.
    spec fn spec_lifetime(&self) -> L;

    /// Returns the access token.
    fn access_token(&self) -> (r: &str)
        ensures
            r@ == self.spec_access_token(),
    ;

    /// Returns the scope, if available.
    fn scope(&self) -> (r: Option<&str>)
        ensures
            match r {
                Some(s) => self.spec_scope() == Some(s@),
                None => self.spec_scope() is None,
            },
    ;

    /// Returns the token lifetime.
    fn lifetime(&self) -> (r: &L)
        ensures
            *r == self.spec_lifetime(),
    ;
}

/// Encoding a token or lifetime to its persisted form — a flat JSON object —
/// and restoring it from that form.
pub trait Persist: View + Sized {
    /// The fields of the persisted object.
    spec fn spec_persist_fields(v: Self::V) -> Seq<(Seq<char>, JsonFieldView)>;

    /// What restoring a persisted document returns.
    spec fn spec_from_persisted(j: JsonView) -> Result<Self::V, ParseErrorView>;

    /// The fields of the persisted object.
    fn persist_fields(&self) -> (r: Vec<(String, JsonField)>)
        ensures
            fields_view(r@) == Self::spec_persist_fields(self@),
    ;

    /// Encodes to the persisted form.
    fn to_persisted(&self) -> (j: Json)
        ensures
            j@ == JsonView::Object(Self::spec_persist_fields(self@)),
    {
        Json::Object(self.persist_fields())
    }

    /// Restores from the persisted form.
    fn from_persisted(j: &Json) -> (r: Result<Self, ParseError>)
        ensures
            (r matches Ok(t) ==> Self::spec_from_persisted(j@) == Ok::<Self::V, ParseErrorView>(
                t@,
            )),
            (r matches Err(e) ==> Self::spec_from_persisted(j@) == Err::<Self::V, ParseErrorView>(
                e@,
            )),
    ;
}

} // verus!
