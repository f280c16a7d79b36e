//! The bearer token type.

use vstd::prelude::*;

use crate::client::response::{FromResponse, ParseError, ParseErrorView};
use crate::json::{json_str, Json, JsonField, JsonFieldView, JsonView};
use crate::token::{Lifetime, Persist, Token};
use vstd::string::StrSliceExecFns;

verus! {

/// Whether a `token_type` value names the bearer type: "bearer", compared
/// ignoring ASCII case.
pub open spec fn spec_is_bearer(s: Seq<char>) -> bool {
    &&& s.len() == 6
    &&& (s[0] == 'b' || s[0] == 'B')
    &&& (s[1] == 'e' || s[1] == 'E')
    &&& (s[2] == 'a' || s[2] == 'A')
    &&& (s[3] == 'r' || s[3] == 'R')
    &&& (s[4] == 'e' || s[4] == 'E')
    &&& (s[5] == 'r' || s[5] == 'R')
}

/// Returns true if `s` names the bearer token type, ignoring ASCII case.
fn is_bearer(s: &str) -> (r: bool)
    ensures
        r == spec_is_bearer(s@),
{
    if s.unicode_len() != 6 {
        return false;
    }
    let c0 = s.get_char(0);
    let c1 = s.get_char(1);
    let c2 = s.get_char(2);
    let c3 = s.get_char(3);
    let c4 = s.get_char(4);
    let c5 = s.get_char(5);
    (c0 == 'b' || c0 == 'B') && (c1 == 'e' || c1 == 'E') && (c2 == 'a' || c2 == 'A') && (c3 == 'r'
        || c3 == 'R') && (c4 == 'e' || c4 == 'E') && (c5 == 'r' || c5 == 'R')
}

/// A bearer token: an access token presented as-is, an optional scope, and a
/// lifetime. The wire response must carry a `token_type` that equals "bearer"
/// ignoring case, and a string `access_token`; `scope` is optional.
#[derive(Debug, Clone, PartialEq, Eq)]
pub struct Bearer<L> {
    /// The access token.
    pub access_token: String,
    /// The scope, if any.
    pub scope: Option<String>,
    /// The token lifetime.
    pub lifetime: L,
}

/// The mathematical value of a `Bearer`.
pub struct BearerView<LV> {
    pub access_token: Seq<char>,
    pub scope: Option<Seq<char>>,
    pub lifetime: LV,
}

impl<L: View> View for Bearer<L> {
    type V = BearerView<L::V>;

    open spec fn view(&self) -> BearerView<L::V> {
        BearerView {
            access_token: self.access_token@,
            scope: match self.scope {
                Some(s) => Some(s@),
                None => None,
            },
            lifetime: self.lifetime@,
        }
    }
}

impl<L: Lifetime> Token<L> for Bearer<L> {
    open spec fn spec_access_token(&self) -> Seq<char> {
        self.access_token@
    }

    open spec fn spec_scope(&self) -> Option<Seq<char>> {
        match self.scope {
            Some(s) => Some(s@),
            None => None,
        }
    }

    open spec fn spec_lifetime(&self) -> L {
        self.lifetime
    }

    fn access_token(&self) -> (r: &str) {
        self.access_token.as_str()
    }

    fn scope(&self) -> (r: Option<&str>) {
        match &self.scope {
            Some(s) => Some(s.as_str()),
            None => None,
        }
    }

    fn lifetime(&self) -> (r: &L) {
        &self.lifetime
    }
}

/// What reading the bearer-specific fields of `j` returns, once the lifetime
/// has been parsed: the `token_type` must name the bearer type and
/// `access_token` must be a string; `scope` is kept when present as a string.
pub open spec fn spec_bearer_fields<LV>(j: JsonView, lifetime: LV) -> Result<
    BearerView<LV>,
    ParseErrorView,
> {
    if !(j is Object) {
        Err(ParseErrorView::ExpectedType("object"@))
    } else {
        match json_str(j, "token_type"@) {
            None => Err(ParseErrorView::ExpectedFieldType("token_type"@, "string"@)),
            Some(tt) => if !spec_is_bearer(tt) {
                Err(ParseErrorView::ExpectedFieldValue("token_type"@, "Bearer"@))
            } else {
                match json_str(j, "access_token"@) {
                    None => Err(ParseErrorView::ExpectedFieldType("access_token"@, "string"@)),
                    Some(at) => Ok(
                        BearerView {
                            access_token: at,
                            scope: json_str(j, "scope"@),
                            lifetime: lifetime,
                        },
                    ),
                }
            },
        }
    }
}

impl<L: Lifetime> Bearer<L> {
    /// Reads the bearer-specific fields of a response, around an
    /// already-parsed lifetime.
    fn from_response_and_lifetime(json: &Json, lifetime: L) -> (r: Result<Bearer<L>, ParseError>)
        ensures
            (r matches Ok(t) ==> spec_bearer_fields(json@, lifetime@) == Ok::<
                BearerView<L::V>,
                ParseErrorView,
            >(t@)),
            (r matches Err(e) ==> spec_bearer_fields(json@, lifetime@) == Err::<
                BearerView<L::V>,
                ParseErrorView,
            >(e@)),
    {
        if !json.is_object() {
            return Err(ParseError::ExpectedType("object"));
        }
        let tt = match json.get_str("token_type") {
            None => {
                return Err(ParseError::ExpectedFieldType("token_type", "string"));
            },
            Some(tt) => tt,
        };
        if !is_bearer(tt) {
            return Err(ParseError::ExpectedFieldValue("token_type", "Bearer"));
        }
        let at: String = match json.get_str("access_token") {
            None => {
                return Err(ParseError::ExpectedFieldType("access_token", "string"));
            },
            Some(s) => s.to_owned(),
        };
        let scope: Option<String> = match json.get_str("scope") {
            Some(s) => Some(s.to_owned()),
            None => None,
        };
        Ok(Bearer { access_token: at, scope: scope, lifetime: lifetime })
    }
}

impl<L: Lifetime + FromResponse> FromResponse for Bearer<L> {
    open spec fn spec_from_response(j: JsonView, now: i64) -> Result<
        BearerView<L::V>,
        ParseErrorView,
    > {
        match L::spec_from_response(j, now) {
            Err(e) => Err(e),
            Ok(lv) => spec_bearer_fields(j, lv),
        }
    }

    open spec fn spec_from_response_inherit(
        j: JsonView,
        prev: BearerView<L::V>,
        now: i64,
    ) -> Result<BearerView<L::V>, ParseErrorView> {
        match L::spec_from_response_inherit(j, prev.lifetime, now) {
            Err(e) => Err(e),
            Ok(lv) => spec_bearer_fields(j, lv),
        }
    }

    fn from_response_at(json: &Json, now: i64) -> (r: Result<Bearer<L>, ParseError>) {
        let lifetime = match L::from_response_at(json, now) {
            Err(e) => {
                return Err(e);
            },
            Ok(l) => l,
        };
        Bearer::from_response_and_lifetime(json, lifetime)
    }

    fn from_response_inherit_at(json: &Json, prev: &Bearer<L>, now: i64) -> (r: Result<
        Bearer<L>,
        ParseError,
    >) {
        let lifetime = match L::from_response_inherit_at(json, &prev.lifetime, now) {
            Err(e) => {
                return Err(e);
            },
            Ok(l) => l,
        };
        Bearer::from_response_and_lifetime(json, lifetime)
    }
}

/// `token_type` matching is case-insensitive: whether a bearer response is
/// accepted depends on its `token_type` only through `spec_is_bearer`, which
/// compares to "bearer" ignoring ASCII case; any other value is rejected
/// exactly with `ExpectedFieldValue("token_type", "Bearer")`.
pub proof fn lemma_token_type_decides<LV>(j: JsonView, lifetime: LV, tt: Seq<char>)
    requires
        j is Object,
        json_str(j, "token_type"@) == Some(tt),
    ensures
        !spec_is_bearer(tt) ==> spec_bearer_fields(j, lifetime) == Err::<
            BearerView<LV>,
            ParseErrorView,
        >(ParseErrorView::ExpectedFieldValue("token_type"@, "Bearer"@)),
        spec_is_bearer(tt) && json_str(j, "access_token"@) is Some ==> spec_bearer_fields(
            j,
            lifetime,
        ) is Ok,
{
}

/// Both spellings "Bearer" and "bearer" name the bearer token type, as does
/// any other ASCII casing; "MAC" does not.
pub proof fn lemma_is_bearer_spellings()
    ensures
        spec_is_bearer("Bearer"@),
        spec_is_bearer("bearer"@),
        !spec_is_bearer("MAC"@),
{
    reveal_strlit("Bearer");
    reveal_strlit("bearer");
    reveal_strlit("MAC");
}

impl<L: Lifetime + Persist> Persist for Bearer<L> {
    open spec fn spec_persist_fields(v: BearerView<L::V>) -> Seq<(Seq<char>, JsonFieldView)> {
        seq![("access_token"@, JsonFieldView::Str(v.access_token))] + (match v.scope {
            Some(s) => seq![("scope"@, JsonFieldView::Str(s))],
            None => Seq::empty(),
        }) + L::spec_persist_fields(v.lifetime)
    }

    open spec fn spec_from_persisted(j: JsonView) -> Result<BearerView<L::V>, ParseErrorView> {
        if !(j is Object) {
            Err(ParseErrorView::ExpectedType("object"@))
        } else {
            match json_str(j, "access_token"@) {
                None => Err(ParseErrorView::ExpectedFieldType("access_token"@, "string"@)),
                Some(at) => match L::spec_from_persisted(j) {
                    Err(e) => Err(e),
                    Ok(lv) => Ok(
                        BearerView {
                            access_token: at,
                            scope: json_str(j, "scope"@),
                            lifetime: lv,
                        },
                    ),
                },
            }
        }
    }

    fn persist_fields(&self) -> (r: Vec<(String, JsonField)>) {
        let mut r: Vec<(String, JsonField)> = Vec::new();
        r.push(("access_token".to_owned(), JsonField::Str(self.access_token.clone())));
        match &self.scope {
            Some(s) => r.push(("scope".to_owned(), JsonField::Str(s.clone()))),
            None => (),
        }
        let mut lf = self.lifetime.persist_fields();
        r.append(&mut lf);
        assert(crate::json::fields_view(r@) =~= Bearer::<L>::spec_persist_fields(self@));
        r
    }

    fn from_persisted(j: &Json) -> (r: Result<Bearer<L>, ParseError>) {
        if !j.is_object() {
            return Err(ParseError::ExpectedType("object"));
        }
        let at: String = match j.get_str("access_token") {
            None => {
                return Err(ParseError::ExpectedFieldType("access_token", "string"));
            },
            Some(s) => s.to_owned(),
        };
        let lifetime = match L::from_persisted(j) {
            Err(e) => {
                return Err(e);
            },
            Ok(l) => l,
        };
        let scope: Option<String> = match j.get_str("scope") {
            Some(s) => Some(s.to_owned()),
            None => None,
        };
        Ok(Bearer { access_token: at, scope: scope, lifetime: lifetime })
    }
}

} // verus!
