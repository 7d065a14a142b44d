//! JSON documents, held as `serde_json::Value`.
use vstd::prelude::*;

verus! {

/// `serde_json::Value`, a JSON document. What it holds is named by [`json_view`].
#[verifier::external_type_specification]
#[verifier::external_body]
pub struct ExValue(serde_json::Value);

/// `serde_json::Error`, the reason why a text is not a JSON document.
#[verifier::external_type_specification]
#[verifier::external_body]
pub struct ExJsonError(serde_json::Error);

/// What a JSON document holds. The digits of a number are left out: nothing in
/// this library reads them.
#[verifier::ext_equal]
pub enum JsonView {
    Null,
    Bool(bool),
    Number,
    Text(Seq<char>),
    Array(Seq<JsonView>),
    Object(Map<Seq<char>, JsonView>),
}

/// The contents of a JSON document.
pub uninterp spec fn json_view(value: serde_json::Value) -> JsonView;

/// The JSON document that a text writes, or `None` where it writes none.
pub uninterp spec fn json_document(text: Seq<char>) -> Option<JsonView>;

/// The contents of a list of JSON documents.
pub open spec fn json_views(values: Seq<serde_json::Value>) -> Seq<JsonView> {
    values.map_values(|value: serde_json::Value| json_view(value))
}

/// The contents of an object with these fields, whose names differ.
pub open spec fn fields_view(fields: Seq<(String, serde_json::Value)>) -> Map<Seq<char>, JsonView>
    decreases fields.len(),
{
    if fields.len() == 0 {
        Map::empty()
    } else {
        fields_view(fields.drop_last()).insert(fields.last().0@, json_view(fields.last().1))
    }
}

/// The field `key` of an object. Other documents have no fields.
pub open spec fn json_field(document: JsonView, key: Seq<char>) -> Option<JsonView> {
    match document {
        JsonView::Object(fields) => if fields.contains_key(key) {
            Some(fields[key])
        } else {
            None
        },
        _ => None,
    }
}

/// The text of a document that is a string.
pub open spec fn json_text(document: JsonView) -> Option<Seq<char>> {
    match document {
        JsonView::Text(text) => Some(text),
        _ => None,
    }
}

/// The text of the field `key`, where there is such a field and it is a string.
pub open spec fn json_text_field(document: JsonView, key: Seq<char>) -> Option<Seq<char>> {
    match json_field(document, key) {
        Some(value) => json_text(value),
        None => None,
    }
}

/// `serde_json::from_str::<Value>` reads a whole text as one JSON document. It
/// is a function of the text alone, and fails exactly where the text writes no
/// document. What documents a text writes, and what the error says, is left to
/// `serde_json`.
#[verifier::external_body]
pub(crate) fn parse(s: &str) -> (document: Result<serde_json::Value, serde_json::Error>)
    ensures
        match document {
            Ok(value) => json_document(s@) == Some(json_view(value)),
            Err(_) => json_document(s@) is None,
        },
{
    serde_json::from_str::<serde_json::Value>(s)
}

/// `Value::get` with a text finds the field of that name in an object. It
/// returns `None` where the field is missing or the value is no object.
#[verifier::external_body]
pub(crate) fn get<'a>(value: &'a serde_json::Value, key: &str) -> (field: Option<&'a serde_json::Value>)
    ensures
        match field {
            Some(field) => json_field(json_view(*value), key@) == Some(json_view(*field)),
            None => json_field(json_view(*value), key@) is None,
        },
{
    value.get(key)
}

/// `Value::as_str` returns the text of a string, and `None` for other values.
pub assume_specification[ serde_json::Value::as_str ](value: &serde_json::Value) -> (result: Option<&str>)
    ensures
        match result {
            Some(s) => json_text(json_view(*value)) == Some(s@),
            None => json_text(json_view(*value)) is None,
        },
;

/// `Value::as_array` returns the items of an array, and `None` for other values.
pub assume_specification[ serde_json::Value::as_array ](value: &serde_json::Value) -> (result: Option<
    &Vec<serde_json::Value>,
>)
    ensures
        match result {
            Some(items) => json_view(*value) == JsonView::Array(json_views(items@)),
            None => !(json_view(*value) is Array),
        },
;

/// `Value::String` makes a string.
#[verifier::external_body]
pub(crate) fn string(s: String) -> (value: serde_json::Value)
    ensures
        json_view(value) == JsonView::Text(s@),
{
    serde_json::Value::String(s)
}

/// `Value::Bool` makes a boolean.
#[verifier::external_body]
pub(crate) fn boolean(flag: bool) -> (value: serde_json::Value)
    ensures
        json_view(value) == JsonView::Bool(flag),
{
    serde_json::Value::Bool(flag)
}

/// `Value::Array` makes an array of its items, in order.
#[verifier::external_body]
pub(crate) fn array(items: Vec<serde_json::Value>) -> (value: serde_json::Value)
    ensures
        json_view(value) == JsonView::Array(json_views(items@)),
{
    serde_json::Value::Array(items)
}

/// `Value::Object` over a collected `serde_json::Map` makes an object with the
/// given fields. Fields of the same name are left out here: which of them a
/// collected map keeps is not documented.
#[verifier::external_body]
pub(crate) fn object(fields: Vec<(String, serde_json::Value)>) -> (value: serde_json::Value)
    requires
        forall|i: int, j: int|
            0 <= i < j < fields@.len() ==> (#[trigger] fields@[i]).0@ != (
            #[trigger] fields@[j]).0@,
    ensures
        json_view(value) == JsonView::Object(fields_view(fields@)),
{
    serde_json::Value::Object(fields.into_iter().collect())
}

/// The text of the field `key`, where it is a string.
pub fn text_field<'a>(value: &'a serde_json::Value, key: &str) -> (field: Option<&'a str>)
    ensures
        match field {
            Some(s) => json_text_field(json_view(*value), key@) == Some(s@),
            None => json_text_field(json_view(*value), key@) is None,
        },
{
    match get(value, key) {
        Some(field) => field.as_str(),
        None => None,
    }
}

}
