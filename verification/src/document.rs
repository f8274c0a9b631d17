//! JSON documents, read and written through `serde_json`.
//!
//! Everything in this module is trusted: the contracts describe what
//! `serde_json` does and are not proved. The crate is built without
//! `preserve_order` and without `arbitrary_precision`, so an object is an
//! ordered map by key and an integer is held as `u64` or `i64`.

use vstd::prelude::*;

verus! {

/// What a JSON value holds.
pub ghost enum Json {
    Null,
    Bool(bool),
    /// A number that is held as a whole number.
    Integer(int),
    /// A number that is held as a binary fraction, by the bits that hold it.
    Fraction(int),
    Text(Seq<char>),
    Array(Seq<Json>),
    Object(Map<Seq<char>, Json>),
}

/// `serde_json::Value`, any JSON value. Opaque: what it holds is `content`.
#[verifier::external_type_specification]
#[verifier::external_body]
pub struct ExValue(serde_json::Value);

/// `serde_json::Map`, the members of a JSON object. Opaque: what it holds is
/// `members`.
#[verifier::external_type_specification]
#[verifier::external_body]
#[verifier::reject_recursive_types(K)]
#[verifier::reject_recursive_types(V)]
pub struct ExMap<K, V>(serde_json::Map<K, V>);

/// `serde_json::Error`, why a text is no JSON. Opaque; nothing is read of it.
#[verifier::external_type_specification]
#[verifier::external_body]
pub struct ExError(serde_json::Error);

/// The content of a `serde_json::Value`. It leaves nothing of the value
/// out.
pub uninterp spec fn content(value: serde_json::Value) -> Json;

/// The members that a `serde_json::Map` holds, by key.
pub uninterp spec fn members(object: serde_json::Map<String, serde_json::Value>) -> Map<
    Seq<char>,
    Json,
>;

/// The content of the value that `serde_json::from_str` reads from a text,
/// or `None` where it reports an error.
pub uninterp spec fn parsed(text: Seq<char>) -> Option<Json>;

/// The compact text that `serde_json` writes for a value of this content.
pub uninterp spec fn rendered(json: Json) -> Seq<char>;

/// `serde_json::from_str` at type `Value`: reads one JSON value from the
/// whole text. The outcome depends on the text alone.
#[verifier::external_body]
pub(crate) fn parse(text: &str) -> (r: Result<serde_json::Value, serde_json::Error>)
    ensures
        match r {
            Ok(value) => parsed(text@) == Some(content(value)),
            Err(_) => parsed(text@) is None,
        },
{
    serde_json::from_str::<serde_json::Value>(text)
}

/// `Value::get` with a string key: the member of an object under that key,
/// `None` where the value is no object or has no such member.
#[verifier::external_body]
pub(crate) fn member<'a>(value: &'a serde_json::Value, key: &str) -> (r: Option<
    &'a serde_json::Value,
>)
    ensures
        match r {
            Some(found) => content(*value) matches Json::Object(held) && held.contains_key(key@)
                && content(*found) == held[key@],
            None => !(content(*value) matches Json::Object(held) && held.contains_key(key@)),
        },
{
    value.get(key)
}

/// `Value::as_str`: the text of a string value, `None` for any other value.
#[verifier::external_body]
pub(crate) fn as_text<'a>(value: &'a serde_json::Value) -> (r: Option<&'a str>)
    ensures
        match r {
            Some(text) => content(*value) == Json::Text(text@),
            None => !(content(*value) is Text),
        },
{
    value.as_str()
}

/// `Value::as_i64`: the number of an integer value that fits `i64`, `None`
/// for a larger integer, a fraction or any other value.
#[verifier::external_body]
pub(crate) fn as_integer(value: &serde_json::Value) -> (r: Option<i64>)
    ensures
        match r {
            Some(n) => content(*value) == Json::Integer(n as int),
            None => !(content(*value) matches Json::Integer(n) && i64::MIN <= n <= i64::MAX),
        },
{
    value.as_i64()
}

/// `Value::from` at `String`: the string value of that text.
#[verifier::external_body]
pub(crate) fn text_value(text: String) -> (r: serde_json::Value)
    ensures
        content(r) == Json::Text(text@),
{
    serde_json::Value::from(text)
}

/// `Value::from` at `Option<i64>`: the integer value of that number, or
/// null for `None`.
#[verifier::external_body]
pub(crate) fn optional_integer_value(number: Option<i64>) -> (r: serde_json::Value)
    ensures
        content(r) == match number {
            Some(n) => Json::Integer(n as int),
            None => Json::Null,
        },
{
    serde_json::Value::from(number)
}

/// `Map::new`: an object without members.
#[verifier::external_body]
pub(crate) fn empty_object() -> (r: serde_json::Map<String, serde_json::Value>)
    ensures
        members(r) =~= Map::empty(),
{
    serde_json::Map::new()
}

/// `Map::insert`: sets the member under a key, replacing one that was there.
#[verifier::external_body]
pub(crate) fn set_member(
    object: &mut serde_json::Map<String, serde_json::Value>,
    key: String,
    value: serde_json::Value,
)
    ensures
        members(*final(object)) == members(*old(object)).insert(key@, content(value)),
{
    object.insert(key, value);
}

/// `Value::from` at `Map`: the object value that holds those members.
#[verifier::external_body]
pub(crate) fn object_value(object: serde_json::Map<String, serde_json::Value>) -> (r:
    serde_json::Value)
    ensures
        content(r) == Json::Object(members(object)),
{
    serde_json::Value::from(object)
}

/// `Value::to_string`: the compact JSON text of a value. The text depends
/// on the content alone.
#[verifier::external_body]
pub(crate) fn render(value: &serde_json::Value) -> (r: String)
    ensures
        r@ == rendered(content(*value)),
{
    value.to_string()
}

/// `Value::clone`: a value with the same content.
pub assume_specification[ <serde_json::Value as Clone>::clone ](
    value: &serde_json::Value,
) -> (r: serde_json::Value)
    ensures
        content(r) == content(*value),
;

} // verus!
