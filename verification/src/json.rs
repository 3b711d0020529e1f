//! The part of a JSON request body that signing reads: its top-level shape
//! and the scalar fields of its objects.

use vstd::prelude::*;

verus! {

/// A field's value. Arrays and objects are not looked into.
#[derive(Debug, Clone)]
pub enum JsonScalar {
    Null,
    Bool(bool),
    /// A number, as `serde_json` renders it: an integer in decimal, a float
    /// in the shortest form that reads back as the same float, which need not
    /// be the form that the JSON text had.
    Number(String),
    Text(String),
    Structured,
}

/// One field of an object.
#[derive(Debug, Clone)]
pub struct JsonField {
    pub key: String,
    pub value: JsonScalar,
}

/// One element of a top-level array.
#[derive(Debug, Clone)]
pub enum JsonItem {
    /// An object, with its fields in the order in which the parser hands
    /// them out.
    Object(Vec<JsonField>),
    Other,
}

/// A request body.
#[derive(Debug, Clone)]
pub enum JsonBody {
    /// An array: a batch.
    List(Vec<JsonItem>),
    /// A single object.
    Object(Vec<JsonField>),
    Other,
}

/// `serde_json::Value`, which the conversions below take apart.
#[verifier::external_type_specification]
#[verifier::external_body]
pub struct ExJsonValue(serde_json::Value);

/// `serde_json::Error`, carried through unread.
#[verifier::external_type_specification]
#[verifier::external_body]
pub struct ExJsonError(serde_json::Error);

/// What `serde_json::from_str` makes of `text`, brought into the shapes
/// above; `None` where it is no JSON document.
pub uninterp spec fn parsed_body(text: Seq<char>) -> Option<JsonBody>;

/// Tells the variants of `serde_json::Value` apart; a number is rendered by
/// the `Display` of `serde_json::Number`.
#[verifier::external_body]
fn scalar_of(value: &serde_json::Value) -> JsonScalar {
    match value {
        serde_json::Value::Null => JsonScalar::Null,
        serde_json::Value::Bool(b) => JsonScalar::Bool(*b),
        serde_json::Value::Number(n) => JsonScalar::Number(n.to_string()),
        serde_json::Value::String(s) => JsonScalar::Text(s.clone()),
        serde_json::Value::Array(_) => JsonScalar::Structured,
        serde_json::Value::Object(_) => JsonScalar::Structured,
    }
}

/// The fields of a `serde_json::Value` that is an object, in the order in
/// which `serde_json::Map::iter` hands them out.
#[verifier::external_body]
fn item_of(value: &serde_json::Value) -> JsonItem {
    match value.as_object() {
        Some(object) => JsonItem::Object(
            object.iter().map(|(k, v)| JsonField { key: k.clone(), value: scalar_of(v) }).collect(),
        ),
        None => JsonItem::Other,
    }
}

/// `serde_json::from_str` on `text`. The contract only names the outcome:
/// the same text always gives the same document, and a document is given
/// exactly when the call succeeds.
#[verifier::external_body]
pub(crate) fn parse_body(text: &str) -> (r: Result<JsonBody, serde_json::Error>)
    ensures
        match r {
            Ok(body) => parsed_body(text@) == Some(body),
            Err(_) => parsed_body(text@) is None,
        },
{
    let value = serde_json::from_str::<serde_json::Value>(text)?;
    Ok(match (&value, item_of(&value)) {
        (serde_json::Value::Array(items), _) => JsonBody::List(items.iter().map(item_of).collect()),
        (_, JsonItem::Object(fields)) => JsonBody::Object(fields),
        _ => JsonBody::Other,
    })
}

/// The text that `Display` of `serde_json::Error` gives for `error`. Nothing
/// is claimed of it.
#[verifier::external_body]
pub(crate) fn json_error_text(error: &serde_json::Error) -> String {
    error.to_string()
}

} // verus!
