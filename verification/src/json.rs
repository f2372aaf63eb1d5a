//! What is taken on trust of `serde_json`: that `to_value` turns a text into a
//! JSON string, and a vector of texts into a JSON array of strings.

use vstd::prelude::*;

verus! {

/// `serde_json::Value`, a JSON value. Nothing is known of one but what
/// [`json_text`] and [`json_texts`] say that it holds.
#[verifier::external_type_specification]
#[verifier::external_body]
pub struct ExValue(serde_json::Value);

/// `serde_json::Error`, the error of a failed conversion. It is only carried.
#[verifier::external_type_specification]
#[verifier::external_body]
pub struct ExError(serde_json::Error);

/// What `value` holds as a JSON string: the text of a `Value::String`, and
/// `None` for every other variant.
pub uninterp spec fn json_text(value: serde_json::Value) -> Option<Seq<char>>;

/// What `value` holds as a JSON array of strings: the texts, in order, of a
/// `Value::Array` whose items are all `Value::String` (an empty array holds no
/// text), and `None` for every other value.
pub uninterp spec fn json_texts(value: serde_json::Value) -> Option<Seq<Seq<char>>>;

/// `serde_json::to_value` on a `&str`. It cannot fail: a `str` serializes
/// itself by one call of `serialize_str`, which the serializer behind
/// `to_value` answers with a `Value::String` that owns the same text.
#[verifier::external_body]
pub(crate) fn text_to_value(text: &str) -> (value: Result<serde_json::Value, serde_json::Error>)
    ensures
        value is Ok,
        json_text(value->Ok_0) == Some(text@),
        json_texts(value->Ok_0) is None,
{
    serde_json::to_value(text)
}

/// `serde_json::to_value` on a `&Vec<String>`. It cannot fail: a `Vec`
/// serializes its items one after the other as a sequence, which the
/// serializer behind `to_value` collects into a `Value::Array`, and each
/// `String` becomes a `Value::String` that owns the same text.
#[verifier::external_body]
pub(crate) fn texts_to_value(texts: &Vec<String>) -> (value: Result<
    serde_json::Value,
    serde_json::Error,
>)
    ensures
        value is Ok,
        json_texts(value->Ok_0) == Some(texts@.map_values(|text: String| text@)),
        json_text(value->Ok_0) is None,
{
    serde_json::to_value(texts)
}

} // verus!
