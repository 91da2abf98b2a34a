//! JSON values as the library carries them inside requests and messages,
//! and the calls into `serde_json` that read and write them.

use vstd::prelude::*;
use vstd::string::*;

verus! {

/// A JSON value.  Numbers keep the text that `serde_json` writes for them;
/// a number text that is no JSON number is written back as `null`.
/// An object lists its members in the order it was built with; objects
/// that come from parsing list them in the order of `serde_json`'s map,
/// which sorts them by name.
#[derive(Debug, PartialEq)]
pub enum Json {
    Null,
    Bool(bool),
    Number(String),
    Str(String),
    Array(Vec<Json>),
    Object(Vec<(String, Json)>),
}

/// `j` is the JSON string with the characters `s`.
pub open spec fn is_json_str(j: Json, s: Seq<char>) -> bool {
    j matches Json::Str(t) && t@ == s
}

/// `a` and `b` are the same JSON value: same shape, and the same
/// characters in every string, number and member name.
pub open spec fn json_same(a: Json, b: Json) -> bool
    decreases a,
{
    match (a, b) {
        (Json::Null, Json::Null) => true,
        (Json::Bool(x), Json::Bool(y)) => x == y,
        (Json::Number(x), Json::Number(y)) => x@ == y@,
        (Json::Str(x), Json::Str(y)) => x@ == y@,
        (Json::Array(xs), Json::Array(ys)) => xs@.len() == ys@.len() && forall|i: int|
            0 <= i < xs@.len() ==> json_same(#[trigger] xs@[i], ys@[i]),
        (Json::Object(xs), Json::Object(ys)) => xs@.len() == ys@.len() && forall|i: int|
            0 <= i < xs@.len() ==> (#[trigger] xs@[i]).0@ == ys@[i].0@ && json_same(
                xs@[i].1,
                ys@[i].1,
            ),
        _ => false,
    }
}

/// Every JSON value is the same as itself.
pub proof fn lemma_json_same_refl(a: Json)
    ensures
        json_same(a, a),
    decreases a,
{
    match a {
        Json::Array(xs) => {
            assert forall|i: int| 0 <= i < xs@.len() implies json_same(
                #[trigger] xs@[i],
                xs@[i],
            ) by {
                lemma_json_same_refl(xs@[i]);
            }
        },
        Json::Object(xs) => {
            assert forall|i: int| 0 <= i < xs@.len() implies (#[trigger] xs@[i]).0@ == xs@[i].0@
                && json_same(xs@[i].1, xs@[i].1) by {
                lemma_json_same_refl(xs@[i].1);
            }
        },
        _ => {},
    }
}

/// A JSON string holding the characters of `s`.
pub fn json_str(s: &str) -> (j: Json)
    ensures
        is_json_str(j, s@),
{
    Json::Str(String::from_str(s))
}

/// An object member `name: value`.
pub fn member(name: &str, value: Json) -> (m: (String, Json))
    ensures
        m.0@ == name@,
        m.1 == value,
{
    (String::from_str(name), value)
}

#[verifier::external_type_specification]
#[verifier::external_body]
pub struct ExValue(serde_json::Value);

/// What `serde_json::from_str::<serde_json::Value>` makes of a JSON text:
/// the value, or the text of its error.
pub uninterp spec fn parsed_json(text: Seq<char>) -> Result<Json, Seq<char>>;

/// The text that `serde_json::to_string_pretty` writes for an array of
/// JSON values.
pub uninterp spec fn pretty_json_array(values: Seq<Json>) -> Seq<char>;

#[verifier::external_body]
fn json_from_value(v: serde_json::Value) -> Json {
    match v {
        serde_json::Value::Null => Json::Null,
        serde_json::Value::Bool(b) => Json::Bool(b),
        serde_json::Value::Number(n) => Json::Number(n.to_string()),
        serde_json::Value::String(s) => Json::Str(s),
        serde_json::Value::Array(a) => Json::Array(a.into_iter().map(json_from_value).collect()),
        serde_json::Value::Object(m) => Json::Object(
            m.into_iter().map(|(k, x)| (k, json_from_value(x))).collect(),
        ),
    }
}

#[verifier::external_body]
fn json_to_value(j: &Json) -> serde_json::Value {
    match j {
        Json::Null => serde_json::Value::Null,
        Json::Bool(b) => serde_json::Value::Bool(*b),
        Json::Number(n) => serde_json::from_str(n).unwrap_or(serde_json::Value::Null),
        Json::Str(s) => serde_json::Value::String(s.clone()),
        Json::Array(a) => serde_json::Value::Array(a.iter().map(json_to_value).collect()),
        Json::Object(m) => serde_json::Value::Object(
            m.iter().map(|(k, x)| (k.clone(), json_to_value(x))).collect(),
        ),
    }
}

/// Calls `serde_json::from_str::<serde_json::Value>` on `text` and turns
/// the value, one node for one, into a `Json` (the error into its text).
/// The contract claims only that the outcome is the one named
/// `parsed_json` for this text: the grammar of JSON is not spelled out.
#[verifier::external_body]
pub(crate) fn parse_json(text: &str) -> (r: Result<Json, String>)
    ensures
        match r {
            Ok(j) => parsed_json(text@) == Ok::<Json, Seq<char>>(j),
            Err(e) => parsed_json(text@) == Err::<Json, Seq<char>>(e@),
        },
{
    serde_json::from_str::<serde_json::Value>(text).map(json_from_value).map_err(|e| e.to_string())
}

/// Calls `serde_json::to_string_pretty` on the array `values` (turned one
/// node for one into `serde_json::Value`s; a number whose text is not a
/// JSON number, which `parse_json` never makes, becomes `null`), with the
/// empty text on failure.  The contract claims only that the text is the
/// one named `pretty_json_array` for these values.
#[verifier::external_body]
pub(crate) fn pretty_json_text(values: &Vec<Json>) -> (s: String)
    ensures
        s@ == pretty_json_array(values@),
{
    let array: Vec<serde_json::Value> = values.iter().map(json_to_value).collect();
    serde_json::to_string_pretty(&array).unwrap_or_default()
}

} // verus!
