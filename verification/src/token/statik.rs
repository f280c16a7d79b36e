//! The static lifetime.

use vstd::prelude::*;

use crate::client::response::{FromResponse, ParseError, ParseErrorView};
use crate::json::{json_has, Json, JsonField, JsonFieldView, JsonView};
use crate::token::{Lifetime, Persist};

verus! {

/// A static, non-expiring token lifetime. A response for this lifetime must
/// not carry an `expires_in` field.
#[derive(Debug, Clone, Copy, PartialEq, Eq)]
pub struct Static;

impl View for Static {
    type V = Static;

    open spec fn view(&self) -> Static {
        Static
    }
}

impl Lifetime for Static {
    open spec fn spec_expired_at(&self, now: i64) -> bool {
        false
    }

    fn expired_at(&self, now: i64) -> (r: bool) {
        false
    }
}

impl FromResponse for Static {
    open spec fn spec_from_response(j: JsonView, now: i64) -> Result<Static, ParseErrorView> {
        if !(j is Object) {
            Err(ParseErrorView::ExpectedType("object"@))
        } else if json_has(j, "expires_in"@) {
            Err(ParseErrorView::UnexpectedField("expires_in"@))
        } else {
            Ok(Static)
        }
    }

    fn from_response_at(json: &Json, now: i64) -> (r: Result<Static, ParseError>) {
        if !json.is_object() {
            return Err(ParseError::ExpectedType("object"));
        }
        if json.has("expires_in") {
            return Err(ParseError::UnexpectedField("expires_in"));
        }
        Ok(Static)
    }

    open spec fn spec_from_response_inherit(j: JsonView, prev: Static, now: i64) -> Result<
        Static,
        ParseErrorView,
    > {
        Static::spec_from_response(j, now)
    }

    fn from_response_inherit_at(json: &Json, prev: &Static, now: i64) -> (r: Result<
        Static,
        ParseError,
    >) {
        Static::from_response_at(json, now)
    }
}

impl Persist for Static {
    open spec fn spec_persist_fields(v: Static) -> Seq<(Seq<char>, JsonFieldView)> {
        Seq::empty()
    }

    open spec fn spec_from_persisted(j: JsonView) -> Result<Static, ParseErrorView> {
        if j is Object {
            Ok(Static)
        } else {
            Err(ParseErrorView::ExpectedType("object"@))
        }
    }

    fn persist_fields(&self) -> (r: Vec<(String, JsonField)>) {
        let r: Vec<(String, JsonField)> = Vec::new();
        assert(crate::json::fields_view(r@) =~= Static::spec_persist_fields(self@));
        r
    }

    fn from_persisted(j: &Json) -> (r: Result<Static, ParseError>) {
        if j.is_object() {
            Ok(Static)
        } else {
            Err(ParseError::ExpectedType("object"))
        }
    }
}

/// An accepted static-lifetime response never expires, whatever the clock
/// reads; and a response object that carries `expires_in` is rejected exactly
/// with `UnexpectedField("expires_in")`.
pub proof fn lemma_static_response(j: JsonView, now: i64)
    ensures
        Static::spec_from_response(j, now) matches Ok(l) ==> forall|at: i64|
            !(#[trigger] l.spec_expired_at(at)),
        j is Object && json_has(j, "expires_in"@) ==> Static::spec_from_response(j, now)
            == Err::<Static, ParseErrorView>(ParseErrorView::UnexpectedField("expires_in"@)),
{
}

} // verus!
