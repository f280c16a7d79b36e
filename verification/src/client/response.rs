//! Response parsing.

use vstd::prelude::*;

use crate::json::{Json, JsonView};

verus! {

/// Response parse errors: structural mismatches between the wire response and
/// the expected token or lifetime shape.
#[derive(Debug, Clone, Copy, PartialEq, Eq)]
pub enum ParseError {
    /// Expected the response to be of this type.
    ExpectedType(&'static str),
    /// Expected the field to be of this type.
    ExpectedFieldType(&'static str, &'static str),
    /// Expected the field to equal this value.
    ExpectedFieldValue(&'static str, &'static str),
    /// Expected the field to not be present.
    UnexpectedField(&'static str),
}

/// The mathematical value of a `ParseError`.
pub enum ParseErrorView {
    ExpectedType(Seq<char>),
    ExpectedFieldType(Seq<char>, Seq<char>),
    ExpectedFieldValue(Seq<char>, Seq<char>),
    UnexpectedField(Seq<char>),
}

impl View for ParseError {
    type V = ParseErrorView;

    open spec fn view(&self) -> ParseErrorView {
        match *self {
            ParseError::ExpectedType(t) => ParseErrorView::ExpectedType(t@),
            ParseError::ExpectedFieldType(k, t) => ParseErrorView::ExpectedFieldType(k@, t@),
            ParseError::ExpectedFieldValue(k, v) => ParseErrorView::ExpectedFieldValue(k@, v@),
            ParseError::UnexpectedField(k) => ParseErrorView::UnexpectedField(k@),
        }
    }
}

/// Parsing a value of a type from a JSON response.
///
/// `spec_from_response` fixes, for every document and every reading of the
/// clock, either the exact value parsed or the exact error returned; the
/// executable methods are bound to it. The `inherit` form is for refresh
/// responses, where the absence of a new refresh token means the previous one
/// is still valid; by default it ignores the previous value.
pub trait FromResponse: View + Sized {
    /// What parsing `j` at time `now` returns.
    spec fn spec_from_response(j: JsonView, now: i64) -> Result<Self::V, ParseErrorView>;

    /// What parsing `j` at time `now`, inheriting missing values from `prev`,
    /// returns. For most types inheritance changes nothing and this equals
    /// `spec_from_response(j, now)`.
    spec fn spec_from_response_inherit(j: JsonView, prev: Self::V, now: i64) -> Result<
        Self::V,
        ParseErrorView,
    >;

    /// Parses a JSON response, with the clock read as `now`.
    fn from_response_at(json: &Json, now: i64) -> (r: Result<Self, ParseError>)
        ensures
            (r matches Ok(t) ==> Self::spec_from_response(json@, now) == Ok::<
                Self::V,
                ParseErrorView,
            >(t@)),
            (r matches Err(e) ==> Self::spec_from_response(json@, now) == Err::<
                Self::V,
                ParseErrorView,
            >(e@)),
    ;

    /// Parses a JSON response, inheriting missing values from `prev`, with the
    /// clock read as `now`.
    fn from_response_inherit_at(json: &Json, prev: &Self, now: i64) -> (r: Result<
        Self,
        ParseError,
    >)
        ensures
            (r matches Ok(t) ==> Self::spec_from_response_inherit(json@, prev@, now) == Ok::<
                Self::V,
                ParseErrorView,
            >(t@)),
            (r matches Err(e) ==> Self::spec_from_response_inherit(json@, prev@, now) == Err::<
                Self::V,
                ParseErrorView,
            >(e@)),
    ;

    /// Parses a JSON response, reading the clock.
    fn from_response(json: &Json) -> (r: Result<Self, ParseError>)
        ensures
            exists|now: i64|
                {
                    &&& (r matches Ok(t) ==> #[trigger] Self::spec_from_response(json@, now)
                        == Ok::<Self::V, ParseErrorView>(t@))
                    &&& (r matches Err(e) ==> Self::spec_from_response(json@, now) == Err::<
                        Self::V,
                        ParseErrorView,
                    >(e@))
                },
    {
        let now = crate::clock::now_seconds();
        Self::from_response_at(json, now)
    }

    /// Parses a JSON response, inheriting missing values from `prev`, reading
    /// the clock.
    fn from_response_inherit(json: &Json, prev: &Self) -> (r: Result<Self, ParseError>)
        ensures
            exists|now: i64|
                {
                    &&& (r matches Ok(t) ==> #[trigger] Self::spec_from_response_inherit(
                        json@,
                        prev@,
                        now,
                    ) == Ok::<Self::V, ParseErrorView>(t@))
                    &&& (r matches Err(e) ==> Self::spec_from_response_inherit(json@, prev@, now)
                        == Err::<Self::V, ParseErrorView>(e@))
                },
    {
        let now = crate::clock::now_seconds();
        Self::from_response_inherit_at(json, prev, now)
    }
}

/// The message that a parse error prints as.
pub open spec fn spec_parse_error_message(e: ParseErrorView) -> Seq<char> {
    match e {
        ParseErrorView::ExpectedType(t) => "Expected response of type "@ + t,
        ParseErrorView::ExpectedFieldType(k, t) => "Expected field "@ + k + " of type "@ + t,
        ParseErrorView::ExpectedFieldValue(k, v) => "Expected field "@ + k + " to equal "@ + v,
        ParseErrorView::UnexpectedField(k) => "Unexpected field "@ + k,
    }
}

impl ParseError {
    /// A human-readable description of the error.
    pub fn message(&self) -> (r: String)
        ensures
            r@ == spec_parse_error_message(self@),
    {
        match *self {
            ParseError::ExpectedType(t) => {
                let mut s = "Expected response of type ".to_owned();
                s.append(t);
                s
            },
            ParseError::ExpectedFieldType(k, t) => {
                let mut s = "Expected field ".to_owned();
                s.append(k);
                s.append(" of type ");
                s.append(t);
                s
            },
            ParseError::ExpectedFieldValue(k, v) => {
                let mut s = "Expected field ".to_owned();
                s.append(k);
                s.append(" to equal ");
                s.append(v);
                s
            },
            ParseError::UnexpectedField(k) => {
                let mut s = "Unexpected field ".to_owned();
                s.append(k);
                s
            },
        }
    }
}

} // verus!
