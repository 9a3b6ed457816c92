//! JSON objects, built and encoded by serde_json.

use vstd::prelude::*;

#[allow(unused_imports)]
use crate::text::text_of;

verus! {

/// `serde_json::Value`, carried as an opaque value.
#[verifier::external_type_specification]
#[verifier::external_body]
pub struct ExValue(serde_json::Value);

/// `serde_json::Map`, the collection behind a JSON object.
#[verifier::external_type_specification]
#[verifier::external_body]
#[verifier::reject_recursive_types(K)]
#[verifier::reject_recursive_types(V)]
pub struct ExObject<K, V>(serde_json::Map<K, V>);

/// `serde_json::Error`, carried as an opaque value.
#[verifier::external_type_specification]
#[verifier::external_body]
pub struct ExError(serde_json::Error);

/// A JSON field as the contracts see it.
pub enum JsonField {
    Null,
    Bool(bool),
    Int(i64),
    Text(Seq<char>),
    Ints(Seq<i32>),
    /// A value of any other shape, told from the others by a number.
    Other(nat),
}

/// A number, or `null` in its absence.
pub open spec fn int_field(value: Option<i64>) -> JsonField {
    match value {
        Some(n) => JsonField::Int(n),
        None => JsonField::Null,
    }
}

/// A string, or `null` in its absence.
pub open spec fn text_field(value: Option<Seq<char>>) -> JsonField {
    match value {
        Some(text) => JsonField::Text(text),
        None => JsonField::Null,
    }
}

/// The fields of the empty object.
pub open spec fn no_fields() -> Map<Seq<char>, JsonField> {
    Map::empty()
}

/// What a JSON object holds: its fields by name.
pub uninterp spec fn object_fields(
    object: serde_json::Map<String, serde_json::Value>,
) -> Map<Seq<char>, JsonField>;

/// The compact text in which `serde_json::to_string` writes an object with these fields.
pub uninterp spec fn object_text(fields: Map<Seq<char>, JsonField>) -> Seq<char>;

/// `serde_json::Map::new` makes an object without fields.
pub assume_specification[ serde_json::Map::<String, serde_json::Value>::new ]() -> (res: serde_json::Map<String, serde_json::Value>)
    ensures
        object_fields(res) == no_fields(),
;

/// `serde_json::Map::insert`, of an optional integer as `Value::from` converts it: sets one
/// field to a number or `null`, and leaves the others as they were.
#[verifier::external_body]
pub(crate) fn put_int(
    object: &mut serde_json::Map<String, serde_json::Value>,
    name: &str,
    value: Option<i64>,
)
    ensures
        object_fields(*final(object)) == object_fields(*old(object)).insert(name@, int_field(value)),
{
    object.insert(name.to_string(), serde_json::Value::from(value));
}

/// `serde_json::Map::insert`, of an optional string as `Value::from` converts it: sets one
/// field to a string or `null`, and leaves the others as they were.
#[verifier::external_body]
pub(crate) fn put_text(
    object: &mut serde_json::Map<String, serde_json::Value>,
    name: &str,
    value: Option<String>,
)
    ensures
        object_fields(*final(object)) == object_fields(*old(object)).insert(
            name@,
            text_field(text_of(value)),
        ),
{
    object.insert(name.to_string(), serde_json::Value::from(value));
}

/// `serde_json::Map::insert`, of a truth value as `Value::from` converts it: sets one field to
/// it, and leaves the others as they were.
#[verifier::external_body]
pub(crate) fn put_bool(
    object: &mut serde_json::Map<String, serde_json::Value>,
    name: &str,
    value: bool,
)
    ensures
        object_fields(*final(object)) == object_fields(*old(object)).insert(
            name@,
            JsonField::Bool(value),
        ),
{
    object.insert(name.to_string(), serde_json::Value::from(value));
}

/// `serde_json::Map::insert`, of a vector of integers as `Value::from` converts it: sets one
/// field to an array of numbers in the vector's order, and leaves the others as they were.
#[verifier::external_body]
pub(crate) fn put_ints(
    object: &mut serde_json::Map<String, serde_json::Value>,
    name: &str,
    value: Vec<i32>,
)
    ensures
        object_fields(*final(object)) == object_fields(*old(object)).insert(
            name@,
            JsonField::Ints(value@),
        ),
{
    object.insert(name.to_string(), serde_json::Value::from(value));
}

/// The text holds no line break.
pub open spec fn is_one_line(text: Seq<char>) -> bool {
    forall|i: int| 0 <= i < text.len() ==> text[i] != '\n'
}

/// `serde_json::to_string` writes the object's fields and nothing else. The text depends on
/// the fields alone, since the map behind an object is kept in the order of the names, and it
/// holds no line break, since the compact form has no white space and a line break in a string
/// is escaped. There is always a text: the names are strings, a value serialises itself without
/// an error of its own, and the text grows in memory.
#[verifier::external_body]
fn encode(object: serde_json::Map<String, serde_json::Value>) -> (res: Result<
    String,
    serde_json::Error,
>)
    ensures
        res is Ok,
        res->Ok_0@ == object_text(object_fields(object)),
        is_one_line(res->Ok_0@),
{
    serde_json::to_string(&serde_json::Value::Object(object))
}

/// The text of an object, on one line.
pub(crate) fn encoded(object: serde_json::Map<String, serde_json::Value>) -> (res: String)
    ensures
        res@ == object_text(object_fields(object)),
        is_one_line(res@),
{
    match encode(object) {
        Ok(text) => text,
        Err(_) => String::new(),
    }
}

/// The text in which `serde_json::to_string` writes a string.
pub uninterp spec fn string_text(text: Seq<char>) -> Seq<char>;

/// The text holds no character that JSON escapes: no quotation mark, no backslash, and no
/// control character.
pub open spec fn is_plain(text: Seq<char>) -> bool {
    forall|i: int|
        0 <= i < text.len() ==> #[trigger] text[i] >= ' ' && text[i] != '"' && text[i] != '\\'
}

/// A text between quotation marks.
pub open spec fn in_quotes(text: Seq<char>) -> Seq<char> {
    seq!['"'] + text + seq!['"']
}

/// `serde_json::to_string` on a string. There is always a text, as it grows in memory. It holds
/// no line break, since one is escaped, and a text without any character to escape stands in it
/// as it is, between quotation marks.
#[verifier::external_body]
fn encode_string(text: &str) -> (res: Result<String, serde_json::Error>)
    ensures
        res is Ok,
        res->Ok_0@ == string_text(text@),
        is_one_line(res->Ok_0@),
        is_plain(text@) ==> res->Ok_0@ == in_quotes(text@),
{
    serde_json::to_string(text)
}

/// A string as JSON.
pub(crate) fn string_json(text: &str) -> (res: String)
    ensures
        res@ == string_text(text@),
        is_one_line(res@),
        is_plain(text@) ==> res@ == in_quotes(text@),
{
    match encode_string(text) {
        Ok(json) => json,
        Err(_) => String::new(),
    }
}

} // verus!
