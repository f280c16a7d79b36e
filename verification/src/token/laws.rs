//! Laws relating the lifetime variants: a response of one variant's shape is
//! rejected by the parsers of the others, and the persisted form of every
//! token and lifetime restores to an equal value.

use vstd::prelude::*;

use crate::client::response::FromResponse;
use crate::client::response::ParseErrorView;
use crate::json::{
    json_has, json_int, json_str, lemma_lookup_found, lemma_lookup_missing, JsonFieldView,
    JsonView,
};
use crate::token::{Bearer, BearerView, Expiring, Persist, Refresh, RefreshView, Static};

verus! {

/// The response shape of the static lifetime: an object without `expires_in`.
pub open spec fn spec_static_shaped(j: JsonView) -> bool {
    j is Object && !json_has(j, "expires_in"@)
}

/// The response shape of the expiring lifetime: an object with an integer
/// `expires_in` and no `refresh_token`.
pub open spec fn spec_expiring_shaped(j: JsonView) -> bool {
    j is Object && json_int(j, "expires_in"@) is Some && !json_has(j, "refresh_token"@)
}

/// The response shape of the refreshable lifetime: an object with an integer
/// `expires_in` and a string `refresh_token`.
pub open spec fn spec_refresh_shaped(j: JsonView) -> bool {
    j is Object && json_int(j, "expires_in"@) is Some && json_str(j, "refresh_token"@) is Some
}

/// A response whose shape belongs to another lifetime variant is rejected
/// with a parse error, never silently coerced — for the bare lifetimes and
/// for the bearer tokens built on them alike.
pub proof fn lemma_lifetime_shape_mismatch(j: JsonView, now: i64)
    ensures
        spec_expiring_shaped(j) || spec_refresh_shaped(j) ==> Static::spec_from_response(j, now)
            is Err,
        spec_static_shaped(j) || spec_refresh_shaped(j) ==> Expiring::spec_from_response(j, now)
            is Err,
        spec_static_shaped(j) || spec_expiring_shaped(j) ==> Refresh::spec_from_response(j, now)
            is Err,
        spec_expiring_shaped(j) || spec_refresh_shaped(j) ==> Bearer::<Static>::spec_from_response(
            j,
            now,
        ) is Err,
        spec_static_shaped(j) || spec_refresh_shaped(j) ==> Bearer::<
            Expiring,
        >::spec_from_response(j, now) is Err,
        spec_static_shaped(j) || spec_expiring_shaped(j) ==> Bearer::<Refresh>::spec_from_response(
            j,
            now,
        ) is Err,
{
}

/// The four persisted-form keys are pairwise distinct.
proof fn lemma_persist_keys_distinct()
    ensures
        "access_token"@ != "scope"@,
        "access_token"@ != "refresh_token"@,
        "access_token"@ != "expires"@,
        "scope"@ != "refresh_token"@,
        "scope"@ != "expires"@,
        "refresh_token"@ != "expires"@,
{
    reveal_strlit("access_token");
    reveal_strlit("scope");
    reveal_strlit("refresh_token");
    reveal_strlit("expires");
    assert("access_token"@.len() == 12);
    assert("scope"@.len() == 5);
    assert("refresh_token"@.len() == 13);
    assert("expires"@.len() == 7);
}

/// Fields not modeled are ignored: two response objects that agree on the
/// fields a lifetime parser reads — `expires_in` and `refresh_token` — parse
/// identically, whatever else they carry.
pub proof fn lemma_parse_ignores_unknown_fields(j1: JsonView, j2: JsonView, now: i64)
    requires
        j1 is Object,
        j2 is Object,
        json_has(j1, "expires_in"@) == json_has(j2, "expires_in"@),
        json_int(j1, "expires_in"@) == json_int(j2, "expires_in"@),
        json_has(j1, "refresh_token"@) == json_has(j2, "refresh_token"@),
        json_str(j1, "refresh_token"@) == json_str(j2, "refresh_token"@),
    ensures
        Static::spec_from_response(j1, now) == Static::spec_from_response(j2, now),
        Expiring::spec_from_response(j1, now) == Expiring::spec_from_response(j2, now),
        Refresh::spec_from_response(j1, now) == Refresh::spec_from_response(j2, now),
{
}

/// Restoring the persisted form of a static lifetime gives it back.
pub proof fn lemma_static_persist_round_trip(v: Static)
    ensures
        Static::spec_from_persisted(JsonView::Object(Static::spec_persist_fields(v))) == Ok::<
            Static,
            ParseErrorView,
        >(v),
{
}

/// Restoring the persisted form of an expiring lifetime gives back an equal
/// value.
pub proof fn lemma_expiring_persist_round_trip(v: Expiring)
    ensures
        Expiring::spec_from_persisted(JsonView::Object(Expiring::spec_persist_fields(v))) == Ok::<
            Expiring,
            ParseErrorView,
        >(v),
{
    let fields = Expiring::spec_persist_fields(v);
    assert(fields =~= seq![("expires"@, JsonFieldView::Int(v.expires))]);
    lemma_lookup_found(fields, "expires"@, 0);
}

/// Restoring the persisted form of a refreshable lifetime gives back an equal
/// value.
pub proof fn lemma_refresh_persist_round_trip(v: RefreshView)
    ensures
        Refresh::spec_from_persisted(JsonView::Object(Refresh::spec_persist_fields(v))) == Ok::<
            RefreshView,
            ParseErrorView,
        >(v),
{
    lemma_persist_keys_distinct();
    let fields = Refresh::spec_persist_fields(v);
    assert(fields =~= seq![
        ("refresh_token"@, JsonFieldView::Str(v.refresh_token)),
        ("expires"@, JsonFieldView::Int(v.expires)),
    ]);
    lemma_lookup_found(fields, "refresh_token"@, 0);
    lemma_lookup_found(fields, "expires"@, 1);
}

/// Restoring the persisted form of a static-lifetime bearer token gives back
/// an equal value.
pub proof fn lemma_bearer_static_persist_round_trip(v: BearerView<Static>)
    ensures
        Bearer::<Static>::spec_from_persisted(
            JsonView::Object(Bearer::<Static>::spec_persist_fields(v)),
        ) == Ok::<BearerView<Static>, ParseErrorView>(v),
{
    lemma_persist_keys_distinct();
    let fields = Bearer::<Static>::spec_persist_fields(v);
    match v.scope {
        Some(s) => {
            assert(fields =~= seq![
                ("access_token"@, JsonFieldView::Str(v.access_token)),
                ("scope"@, JsonFieldView::Str(s)),
            ]);
            lemma_lookup_found(fields, "access_token"@, 0);
            lemma_lookup_found(fields, "scope"@, 1);
        },
        None => {
            assert(fields =~= seq![("access_token"@, JsonFieldView::Str(v.access_token))]);
            lemma_lookup_found(fields, "access_token"@, 0);
            lemma_lookup_missing(fields, "scope"@);
        },
    }
}

/// Restoring the persisted form of an expiring-lifetime bearer token gives
/// back an equal value.
pub proof fn lemma_bearer_expiring_persist_round_trip(v: BearerView<Expiring>)
    ensures
        Bearer::<Expiring>::spec_from_persisted(
            JsonView::Object(Bearer::<Expiring>::spec_persist_fields(v)),
        ) == Ok::<BearerView<Expiring>, ParseErrorView>(v),
{
    lemma_persist_keys_distinct();
    let fields = Bearer::<Expiring>::spec_persist_fields(v);
    match v.scope {
        Some(s) => {
            assert(fields =~= seq![
                ("access_token"@, JsonFieldView::Str(v.access_token)),
                ("scope"@, JsonFieldView::Str(s)),
                ("expires"@, JsonFieldView::Int(v.lifetime.expires)),
            ]);
            lemma_lookup_found(fields, "access_token"@, 0);
            lemma_lookup_found(fields, "scope"@, 1);
            lemma_lookup_found(fields, "expires"@, 2);
        },
        None => {
            assert(fields =~= seq![
                ("access_token"@, JsonFieldView::Str(v.access_token)),
                ("expires"@, JsonFieldView::Int(v.lifetime.expires)),
            ]);
            lemma_lookup_found(fields, "access_token"@, 0);
            lemma_lookup_missing(fields, "scope"@);
            lemma_lookup_found(fields, "expires"@, 1);
        },
    }
}

/// Restoring the persisted form of a refreshable-lifetime bearer token gives
/// back an equal value.
pub proof fn lemma_bearer_refresh_persist_round_trip(v: BearerView<RefreshView>)
    ensures
        Bearer::<Refresh>::spec_from_persisted(
            JsonView::Object(Bearer::<Refresh>::spec_persist_fields(v)),
        ) == Ok::<BearerView<RefreshView>, ParseErrorView>(v),
{
    lemma_persist_keys_distinct();
    let fields = Bearer::<Refresh>::spec_persist_fields(v);
    match v.scope {
        Some(s) => {
            assert(fields =~= seq![
                ("access_token"@, JsonFieldView::Str(v.access_token)),
                ("scope"@, JsonFieldView::Str(s)),
                ("refresh_token"@, JsonFieldView::Str(v.lifetime.refresh_token)),
                ("expires"@, JsonFieldView::Int(v.lifetime.expires)),
            ]);
            lemma_lookup_found(fields, "access_token"@, 0);
            lemma_lookup_found(fields, "scope"@, 1);
            lemma_lookup_found(fields, "refresh_token"@, 2);
            lemma_lookup_found(fields, "expires"@, 3);
        },
        None => {
            assert(fields =~= seq![
                ("access_token"@, JsonFieldView::Str(v.access_token)),
                ("refresh_token"@, JsonFieldView::Str(v.lifetime.refresh_token)),
                ("expires"@, JsonFieldView::Int(v.lifetime.expires)),
            ]);
            lemma_lookup_found(fields, "access_token"@, 0);
            lemma_lookup_missing(fields, "scope"@);
            lemma_lookup_found(fields, "refresh_token"@, 1);
            lemma_lookup_found(fields, "expires"@, 2);
        },
    }
}

} // verus!
