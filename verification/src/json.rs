//! Reading JSON documents through `serde_json`.
//!
//! A parsed document stays a `serde_json::Value`. Contracts speak of it through
//! its model, a tree of plain values. The parser and the accessors of `Value`
//! are trusted: each has a contract over the model that is taken from the
//! source of `serde_json` and is not proved here. Everything built on them is
//! verified.

use vstd::prelude::*;

verus! {

/// What a JSON value holds, as a tree of plain values.
pub enum JsonModel {
    Null,
    Bool(bool),
    /// A number. The field is the number as an unsigned 64-bit integer, where
    /// the document wrote it as a non-negative integer that fits; otherwise
    /// `None`.
    Number(Option<u64>),
    Text(Seq<char>),
    Array(Seq<JsonModel>),
    Object(Map<Seq<char>, JsonModel>),
}

impl JsonModel {
    /// The member `key` of an object; `None` for a missing key and for a value
    /// that is no object.
    pub open spec fn member(self, key: Seq<char>) -> Option<JsonModel> {
        match self {
            JsonModel::Object(m) => if m.contains_key(key) {
                Some(m[key])
            } else {
                None
            },
            _ => None,
        }
    }

    /// The elements of an array; `None` for a value that is no array.
    pub open spec fn elements(self) -> Option<Seq<JsonModel>> {
        match self {
            JsonModel::Array(a) => Some(a),
            _ => None,
        }
    }

    /// The first element of a non-empty array.
    pub open spec fn first(self) -> Option<JsonModel> {
        match self {
            JsonModel::Array(a) => if a.len() > 0 {
                Some(a[0])
            } else {
                None
            },
            _ => None,
        }
    }

    /// The text of a string value.
    pub open spec fn text(self) -> Option<Seq<char>> {
        match self {
            JsonModel::Text(s) => Some(s),
            _ => None,
        }
    }

    /// The value of a number that is an unsigned 64-bit integer.
    pub open spec fn unsigned(self) -> Option<u64> {
        match self {
            JsonModel::Number(n) => n,
            _ => None,
        }
    }
}

/// Chains a lookup onto an optional value.
pub open spec fn then_member(v: Option<JsonModel>, key: Seq<char>) -> Option<JsonModel> {
    match v {
        Some(m) => m.member(key),
        None => None,
    }
}

/// Chains taking the first element onto an optional value.
pub open spec fn then_first(v: Option<JsonModel>) -> Option<JsonModel> {
    match v {
        Some(m) => m.first(),
        None => None,
    }
}

/// Chains reading a string onto an optional value.
pub open spec fn then_text(v: Option<JsonModel>) -> Option<Seq<char>> {
    match v {
        Some(m) => m.text(),
        None => None,
    }
}

/// Chains reading an unsigned integer onto an optional value.
pub open spec fn then_unsigned(v: Option<JsonModel>) -> Option<u64> {
    match v {
        Some(m) => m.unsigned(),
        None => None,
    }
}

/// `serde_json::Value`, a parsed JSON value. Its inside is not visible here.
#[verifier::external_type_specification]
#[verifier::external_body]
pub struct ExValue(serde_json::Value);

/// `serde_json::Error`, what the parser says of a text that it rejects.
#[verifier::external_type_specification]
#[verifier::external_body]
pub struct ExJsonError(serde_json::Error);

/// The tree that a `serde_json::Value` holds.
pub uninterp spec fn json_model(v: serde_json::Value) -> JsonModel;

/// The document that `serde_json::from_str` reads from a text, or `None` where
/// it rejects the text.
pub uninterp spec fn json_parse(text: Seq<char>) -> Option<JsonModel>;

/// `serde_json::from_str` for a `Value`. Trusted: the parser is a function of
/// the text alone; it accepts exactly the texts on which `json_parse` is
/// `Some`, and the value it returns holds that document.
#[verifier::external_body]
pub(crate) fn parse_value(text: &str) -> (r: Result<serde_json::Value, serde_json::Error>)
    ensures
        match r {
            Ok(v) => json_parse(text@) == Some(json_model(v)),
            Err(_) => json_parse(text@) is None,
        },
{
    serde_json::from_str::<serde_json::Value>(text)
}

/// `Value::get` with a string index. Trusted: on an object that has the key it
/// returns the member stored under it, and `None` on every other value.
#[verifier::external_body]
pub(crate) fn value_get<'a>(v: &'a serde_json::Value, key: &str) -> (r: Option<&'a serde_json::Value>)
    ensures
        match r {
            Some(m) => json_model(*v).member(key@) == Some(json_model(*m)),
            None => json_model(*v).member(key@) is None,
        },
{
    v.get(key)
}

/// `Value::as_array`. Trusted: on an array it returns the vector of its
/// elements, in order, and `None` on every other value.
#[verifier::external_body]
pub(crate) fn value_as_array(v: &serde_json::Value) -> (r: Option<&Vec<serde_json::Value>>)
    ensures
        match r {
            Some(a) => json_model(*v).elements() == Some(a@.map_values(|e: serde_json::Value| json_model(e))),
            None => json_model(*v).elements() is None,
        },
{
    v.as_array()
}

/// `Value::as_str`. Trusted: on a string it returns the text, and `None` on
/// every other value.
#[verifier::external_body]
pub(crate) fn value_as_str(v: &serde_json::Value) -> (r: Option<&str>)
    ensures
        match r {
            Some(s) => json_model(*v).text() == Some(s@),
            None => json_model(*v).text() is None,
        },
{
    v.as_str()
}

/// `Value::as_u64`. Trusted: on a number that is a non-negative integer within
/// 64 bits it returns that integer, and `None` on every other value.
#[verifier::external_body]
pub(crate) fn value_as_u64(v: &serde_json::Value) -> (r: Option<u64>)
    ensures
        r == json_model(*v).unsigned(),
{
    v.as_u64()
}

/// The first element of an array value.
pub(crate) fn value_first(v: &serde_json::Value) -> (r: Option<&serde_json::Value>)
    ensures
        match r {
            Some(e) => json_model(*v).first() == Some(json_model(*e)),
            None => json_model(*v).first() is None,
        },
{
    match value_as_array(v) {
        Some(a) => {
            if a.len() > 0 {
                Some(&a[0])
            } else {
                None
            }
        },
        None => None,
    }
}

} // verus!
