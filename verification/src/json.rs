//! JSON documents as the library reads them.
//!
//! Text is turned into a document, and a document back into text, by
//! `serde_json`. Everything that inspects a document is verified code over
//! [`Json`].

use vstd::prelude::*;

verus! {

/// `serde_json::Value`, as an opaque type: it passes between the parser, the
/// writer and the conversions below, and nothing is stated of what it holds.
#[verifier::external_type_specification]
#[verifier::external_body]
pub struct ExValue(serde_json::Value);

/// `serde_json::Number`, as an opaque type: a [`Json`] carries a number that
/// is no unsigned integer in it, and nothing is stated of what it holds.
#[verifier::external_type_specification]
#[verifier::external_body]
pub struct ExNumber(serde_json::Number);

/// What the parser says of a text that is no JSON document.
#[derive(Debug)]
pub struct Diagnostic {
    /// The line of the text at which parsing stopped, counted from 1.
    pub line: usize,
    /// The column of that line at which parsing stopped, counted from 1.
    pub column: usize,
    /// The parser's description of what it met.
    pub message: String,
}

/// A JSON document.
///
/// The parser holds a number that is a non-negative integer in the range of
/// `u64` as `Unsigned`, and carries every other number in `Number` as
/// `serde_json` parsed it. Nothing keeps a document that is built by hand to
/// that: the library reads a `Number` as no unsigned integer whatever it
/// holds, and states nothing that depends on what it holds.
/// An object is the sequence of its members. A parsed object has each key
/// once; where a key occurs more than once, its last occurrence counts.
#[derive(Debug)]
pub enum Json {
    Null,
    Bool(bool),
    Unsigned(u64),
    Number(serde_json::Number),
    Text(String),
    Array(Vec<Json>),
    Object(Vec<(String, Json)>),
}

/// What `serde_json` makes of a text: the document it parses to, or the
/// diagnostic it reports.
pub uninterp spec fn parsed(text: Seq<char>) -> Result<Json, Diagnostic>;

/// The compact JSON text that `serde_json` writes for a document.
pub uninterp spec fn rendered(document: Json) -> Seq<char>;

/// Converts a `serde_json::Value` into a [`Json`], variant by variant; a
/// number goes by `Number::as_u64`. Trusted, with nothing stated of the
/// result: it is the half of [`parse_document`] and of the merge that turns
/// what the outside crate returned into a document.
#[verifier::external_body]
pub(crate) fn lift(value: &serde_json::Value) -> Json {
    match value {
        serde_json::Value::Null => Json::Null,
        serde_json::Value::Bool(b) => Json::Bool(*b),
        serde_json::Value::Number(n) => match n.as_u64() {
            Some(u) => Json::Unsigned(u),
            None => Json::Number(n.clone()),
        },
        serde_json::Value::String(s) => Json::Text(s.clone()),
        serde_json::Value::Array(a) => Json::Array(a.iter().map(lift).collect()),
        serde_json::Value::Object(m) => {
            Json::Object(m.iter().map(|(k, v)| (k.clone(), lift(v))).collect())
        },
    }
}

/// Converts a [`Json`] into a `serde_json::Value`, variant by variant. The
/// members of an object are inserted in order with `Map::insert`, so that of
/// two members with one key the later one stays. Trusted, with nothing stated
/// of the result: it is the half of [`render`] and of the merge that turns a
/// document into what the outside crate takes.
#[verifier::external_body]
pub(crate) fn lower(document: &Json) -> serde_json::Value {
    match document {
        Json::Null => serde_json::Value::Null,
        Json::Bool(b) => serde_json::Value::Bool(*b),
        Json::Unsigned(u) => serde_json::Value::Number(serde_json::Number::from(*u)),
        Json::Number(n) => serde_json::Value::Number(n.clone()),
        Json::Text(s) => serde_json::Value::String(s.clone()),
        Json::Array(a) => serde_json::Value::Array(a.iter().map(lower).collect()),
        Json::Object(m) => {
            let mut object = serde_json::Map::new();
            for (k, v) in m.iter() {
                object.insert(k.clone(), lower(v));
            }
            serde_json::Value::Object(object)
        },
    }
}

/// Calls `serde_json::from_str` for a `serde_json::Value`, and reads line,
/// column and message off the `serde_json::Error` where it fails.
///
/// Trusted: the outcome depends on the text alone, and is what [`parsed`]
/// names. Nothing is stated of which texts parse.
#[verifier::external_body]
pub(crate) fn parse_document(text: &str) -> (r: Result<Json, Diagnostic>)
    ensures
        r == parsed(text@),
{
    match serde_json::from_str::<serde_json::Value>(text) {
        Ok(value) => Ok(lift(&value)),
        Err(e) => Err(Diagnostic { line: e.line(), column: e.column(), message: e.to_string() }),
    }
}

/// Calls `to_string` of `serde_json::Value`, which writes compact JSON.
///
/// Trusted: the text depends on the document alone, and is what [`rendered`]
/// names.
#[verifier::external_body]
pub(crate) fn render(document: &Json) -> (r: String)
    ensures
        r@ == rendered(*document),
{
    lower(document).to_string()
}

/// The value of the member of `fields` whose key is `key`; of two members
/// with one key the later one counts.
pub open spec fn member(fields: Seq<(String, Json)>, key: Seq<char>) -> Option<Json>
    decreases fields.len(),
{
    if fields.len() == 0 {
        None
    } else if fields.last().0@ == key {
        Some(fields.last().1)
    } else {
        member(fields.drop_last(), key)
    }
}

/// Looks a key up among the members of an object.
pub fn get<'a>(fields: &'a Vec<(String, Json)>, key: &str) -> (r: Option<&'a Json>)
    ensures
        found(r) == member(fields@, key@),
{
    let wanted = key.to_owned();
    let mut i: usize = fields.len();
    proof {
        assert(fields@.take(i as int) =~= fields@);
    }
    while i > 0
        invariant
            i <= fields.len(),
            wanted@ == key@,
            member(fields@, key@) == member(fields@.take(i as int), key@),
        decreases i,
    {
        proof {
            assert(fields@.take(i as int).drop_last() =~= fields@.take(i as int - 1));
        }
        i -= 1;
        if fields[i].0 == wanted {
            return Some(&fields[i].1);
        }
    }
    None
}

/// A member read as a text: `None` where it is missing or no text.
pub open spec fn as_text(value: Option<Json>) -> Option<String> {
    match value {
        Some(Json::Text(s)) => Some(s),
        _ => None,
    }
}

/// A member read as an optional text: a missing member and `null` are an
/// absent text, and anything but a text or `null` gives `None`.
pub open spec fn as_optional_text(value: Option<Json>) -> Option<Option<String>> {
    match value {
        None => Some(None),
        Some(Json::Null) => Some(None),
        Some(Json::Text(s)) => Some(Some(s)),
        Some(_) => None,
    }
}

/// A member read as a text that `fallback` stands in for where the member is
/// missing: `None` where it is there and no text.
pub open spec fn as_text_or(value: Option<Json>, fallback: Seq<char>) -> Option<Seq<char>> {
    match value {
        None => Some(fallback),
        Some(Json::Text(s)) => Some(s@),
        Some(_) => None,
    }
}

/// A member read as an unsigned number of the machine's word size: `None`
/// where it is missing, no unsigned integer, or out of range.
pub open spec fn as_unsigned(value: Option<Json>) -> Option<usize> {
    match value {
        Some(Json::Unsigned(n)) => if n <= usize::MAX {
            Some(n as usize)
        } else {
            None
        },
        _ => None,
    }
}

/// A member read as an optional unsigned number: a missing member and `null`
/// are an absent number.
pub open spec fn as_optional_unsigned(value: Option<Json>) -> Option<Option<usize>> {
    match value {
        None => Some(None),
        Some(Json::Null) => Some(None),
        Some(other) => match as_unsigned(Some(other)) {
            Some(n) => Some(Some(n)),
            None => None,
        },
    }
}

/// A member read as a truth value: `None` where it is missing or no boolean.
pub open spec fn as_flag(value: Option<Json>) -> Option<bool> {
    match value {
        Some(Json::Bool(b)) => Some(b),
        _ => None,
    }
}

/// What [`get`] found, as contracts speak of it.
pub open spec fn found(value: Option<&Json>) -> Option<Json> {
    match value {
        Some(v) => Some(*v),
        None => None,
    }
}

/// Reads a value as a text.
pub fn read_text(value: Option<&Json>) -> (r: Option<String>)
    ensures
        r == as_text(found(value)),
{
    match value {
        Some(Json::Text(s)) => Some(s.clone()),
        _ => None,
    }
}

/// Reads a value as an optional text.
pub fn read_optional_text(value: Option<&Json>) -> (r: Option<Option<String>>)
    ensures
        r == as_optional_text(found(value)),
{
    match value {
        None => Some(None),
        Some(Json::Null) => Some(None),
        Some(Json::Text(s)) => Some(Some(s.clone())),
        Some(_) => None,
    }
}

/// Reads a value as a text, with `fallback` for a missing value.
pub fn read_text_or(value: Option<&Json>, fallback: &str) -> (r: Option<String>)
    ensures
        match as_text_or(found(value), fallback@) {
            Some(text) => r matches Some(s) && s@ == text,
            None => r is None,
        },
{
    match value {
        None => Some(fallback.to_owned()),
        Some(Json::Text(s)) => Some(s.clone()),
        Some(_) => None,
    }
}

/// Reads a value as an unsigned number.
pub fn read_unsigned(value: Option<&Json>) -> (r: Option<usize>)
    ensures
        r == as_unsigned(found(value)),
{
    match value {
        Some(Json::Unsigned(n)) => if *n <= usize::MAX as u64 {
            Some(*n as usize)
        } else {
            None
        },
        _ => None,
    }
}

/// Reads a value as an optional unsigned number.
pub fn read_optional_unsigned(value: Option<&Json>) -> (r: Option<Option<usize>>)
    ensures
        r == as_optional_unsigned(found(value)),
{
    match value {
        None => Some(None),
        Some(Json::Null) => Some(None),
        Some(other) => match read_unsigned(Some(other)) {
            Some(n) => Some(Some(n)),
            None => None,
        },
    }
}

/// Reads a value as a truth value.
pub fn read_flag(value: Option<&Json>) -> (r: Option<bool>)
    ensures
        r == as_flag(found(value)),
{
    match value {
        Some(Json::Bool(b)) => Some(*b),
        _ => None,
    }
}

} // verus!
