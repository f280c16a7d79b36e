//! The library's view of a JSON document.
//!
//! A token-endpoint response is a flat JSON object whose fields are read as
//! strings or integers; nothing deeper is ever inspected. `Json` holds exactly
//! that much: the fields of the top-level object, each coerced to a string, an
//! integer, or `Other`.

use vstd::prelude::*;

verus! {

/// One field of a JSON object, as far as this library reads it: a string, an
/// integer, or something it never looks inside (arrays, floats, booleans,
/// null, nested objects).
#[derive(Debug, Clone, PartialEq)]
pub enum JsonField {
    Str(String),
    Int(i64),
    Other,
}

/// The mathematical value of a `JsonField`.
pub enum JsonFieldView {
    Str(Seq<char>),
    Int(i64),
    Other,
}

/// A parsed JSON document: either a top-level object, or anything else.
#[derive(Debug, Clone, PartialEq)]
pub enum Json {
    Object(Vec<(String, JsonField)>),
    Other,
}

/// The mathematical value of a `Json`.
pub enum JsonView {
    Object(Seq<(Seq<char>, JsonFieldView)>),
    Other,
}

impl View for JsonField {
    type V = JsonFieldView;

    open spec fn view(&self) -> JsonFieldView {
        match *self {
            JsonField::Str(s) => JsonFieldView::Str(s@),
            JsonField::Int(i) => JsonFieldView::Int(i),
            JsonField::Other => JsonFieldView::Other,
        }
    }
}

/// The mathematical value of a list of object fields.
pub open spec fn fields_view(fields: Seq<(String, JsonField)>) -> Seq<(Seq<char>, JsonFieldView)> {
    fields.map(|i: int, p: (String, JsonField)| (p.0@, p.1@))
}

impl View for Json {
    type V = JsonView;

    open spec fn view(&self) -> JsonView {
        match *self {
            Json::Object(fields) => JsonView::Object(fields_view(fields@)),
            Json::Other => JsonView::Other,
        }
    }
}

/// The first field named `key`, if any.
pub open spec fn lookup_field(
    fields: Seq<(Seq<char>, JsonFieldView)>,
    key: Seq<char>,
) -> Option<JsonFieldView>
    decreases fields.len(),
{
    if fields.len() == 0 {
        None
    } else if fields[0].0 == key {
        Some(fields[0].1)
    } else {
        lookup_field(fields.subrange(1, fields.len() as int), key)
    }
}

/// The field named `key` of a top-level object, if any.
pub open spec fn json_field(j: JsonView, key: Seq<char>) -> Option<JsonFieldView> {
    match j {
        JsonView::Object(fields) => lookup_field(fields, key),
        JsonView::Other => None,
    }
}

/// The field named `key`, if it is present and a string.
pub open spec fn json_str(j: JsonView, key: Seq<char>) -> Option<Seq<char>> {
    match json_field(j, key) {
        Some(JsonFieldView::Str(s)) => Some(s),
        _ => None,
    }
}

/// The field named `key`, if it is present and an integer.
pub open spec fn json_int(j: JsonView, key: Seq<char>) -> Option<i64> {
    match json_field(j, key) {
        Some(JsonFieldView::Int(i)) => Some(i),
        _ => None,
    }
}

/// Whether a field named `key` is present at all.
pub open spec fn json_has(j: JsonView, key: Seq<char>) -> bool {
    json_field(j, key) is Some
}

#[verifier::external_type_specification]
#[verifier::external_body]
pub struct ExSerdeJsonError(serde_json::Error);

/// The document that a piece of text parses to, if it is valid JSON: a name
/// for what `serde_json::from_str` returns, projected onto the fields this
/// library reads. serde_json keeps object fields in a map ordered by key and
/// resolves duplicate keys to the last occurrence, so the result is a function
/// of the text alone.
pub uninterp spec fn json_of(s: Seq<char>) -> Option<JsonView>;

/// Relies on serde_json::from_str for parsing, and on serde_json's
/// Value::as_i64 for integer coercion: both are functions of the text alone.
#[verifier::external_body]
fn parse_json(s: &str) -> (r: Result<Json, serde_json::Error>)
    ensures
        (r matches Ok(j) ==> json_of(s@) == Some(j@)),
        (r matches Err(_) <==> json_of(s@) is None),
{
    let v: serde_json::Value = serde_json::from_str(s)?;
    let m = match v {
        serde_json::Value::Object(m) => m,
        _ => return Ok(Json::Other),
    };
    let fields = m.into_iter().map(|(k, f)| (k, match f {
        serde_json::Value::String(x) => JsonField::Str(x),
        serde_json::Value::Number(n) => n.as_i64().map_or(JsonField::Other, JsonField::Int),
        _ => JsonField::Other,
    }));
    Ok(Json::Object(fields.collect()))
}

/// String equality by contents.
pub(crate) fn str_eq(a: &str, b: &str) -> (r: bool)
    ensures
        r == (a@ == b@),
{
    let sa: String = a.to_owned();
    let sb: String = b.to_owned();
    sa == sb
}

/// Lookup finds the first field whose name matches.
pub proof fn lemma_lookup_found(fields: Seq<(Seq<char>, JsonFieldView)>, key: Seq<char>, i: int)
    requires
        0 <= i < fields.len(),
        fields[i].0 == key,
        forall|k: int| 0 <= k < i ==> fields[k].0 != key,
    ensures
        lookup_field(fields, key) == Some(fields[i].1),
    decreases i,
{
    if i > 0 {
        lemma_lookup_found(fields.subrange(1, fields.len() as int), key, i - 1);
    }
}

/// Lookup misses when no field's name matches.
pub proof fn lemma_lookup_missing(fields: Seq<(Seq<char>, JsonFieldView)>, key: Seq<char>)
    requires
        forall|k: int| 0 <= k < fields.len() ==> fields[k].0 != key,
    ensures
        lookup_field(fields, key) is None,
    decreases fields.len(),
{
    if fields.len() > 0 {
        lemma_lookup_missing(fields.subrange(1, fields.len() as int), key);
    }
}

proof fn lemma_lookup_step(fields: Seq<(Seq<char>, JsonFieldView)>, key: Seq<char>, i: int)
    requires
        0 <= i < fields.len(),
        fields.subrange(i, fields.len() as int)[0].0 != key,
    ensures
        lookup_field(fields.subrange(i, fields.len() as int), key) == lookup_field(
            fields.subrange(i + 1, fields.len() as int),
            key,
        ),
{
    let suffix = fields.subrange(i, fields.len() as int);
    assert(suffix.subrange(1, suffix.len() as int) =~= fields.subrange(
        i + 1,
        fields.len() as int,
    ));
}

impl Json {
    /// Parses a piece of text as JSON.
    pub fn parse(s: &str) -> (r: Result<Json, serde_json::Error>)
        ensures
            (r matches Ok(j) ==> json_of(s@) == Some(j@)),
            (r matches Err(_) <==> json_of(s@) is None),
    {
        parse_json(s)
    }

    /// Whether the document is a top-level object.
    pub fn is_object(&self) -> (r: bool)
        ensures
            r == (self@ is Object),
    {
        match *self {
            Json::Object(_) => true,
            Json::Other => false,
        }
    }

    /// The first field named `key`, if any.
    pub fn get<'a>(&'a self, key: &str) -> (r: Option<&'a JsonField>)
        ensures
            match r {
                Some(f) => json_field(self@, key@) == Some(f@),
                None => json_field(self@, key@) is None,
            },
    {
        match self {
            Json::Other => None,
            Json::Object(fields) => {
                let ghost view_fields = fields_view(fields@);
                assert(view_fields.subrange(0, view_fields.len() as int) =~= view_fields);
                let mut i: usize = 0;
                while i < fields.len()
                    invariant
                        i <= fields.len(),
                        view_fields == fields_view(fields@),
                        self@ == JsonView::Object(view_fields),
                        lookup_field(view_fields, key@) == lookup_field(
                            view_fields.subrange(i as int, view_fields.len() as int),
                            key@,
                        ),
                    decreases fields.len() - i,
                {
                    if str_eq(fields[i].0.as_str(), key) {
                        return Some(&fields[i].1);
                    }
                    proof {
                        lemma_lookup_step(view_fields, key@, i as int);
                    }
                    i = i + 1;
                }
                assert(view_fields.subrange(i as int, view_fields.len() as int) =~= Seq::empty());
                None
            },
        }
    }

    /// The field named `key`, if it is present and a string.
    pub fn get_str<'a>(&'a self, key: &str) -> (r: Option<&'a str>)
        ensures
            match r {
                Some(s) => json_str(self@, key@) == Some(s@),
                None => json_str(self@, key@) is None,
            },
    {
        match self.get(key) {
            Some(JsonField::Str(s)) => Some(s.as_str()),
            _ => None,
        }
    }

    /// The field named `key`, if it is present and an integer.
    pub fn get_i64(&self, key: &str) -> (r: Option<i64>)
        ensures
            r == json_int(self@, key@),
    {
        match self.get(key) {
            Some(JsonField::Int(i)) => Some(*i),
            _ => None,
        }
    }

    /// Whether a field named `key` is present at all.
    pub fn has(&self, key: &str) -> (r: bool)
        ensures
            r == json_has(self@, key@),
    {
        match self.get(key) {
            Some(_) => true,
            None => false,
        }
    }
}

} // verus!
