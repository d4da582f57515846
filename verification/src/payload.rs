//! The claim set of a token as a JSON object, built and read field by field.

use vstd::prelude::*;

verus! {

/// What one field of a claim set holds: a text, a whole number that is not
/// negative, or anything else that JSON allows.
pub enum ClaimValue {
    Text(Seq<char>),
    Number(u64),
    Other,
}

#[verifier::external_type_specification]
#[verifier::external_body]
pub struct ExJsonValue(serde_json::Value);

#[verifier::external_type_specification]
#[verifier::external_body]
#[verifier::reject_recursive_types(K)]
#[verifier::reject_recursive_types(V)]
pub struct ExJsonObject<K, V>(serde_json::Map<K, V>);

/// The fields of a JSON object, each by its name.
pub uninterp spec fn object_fields(object: serde_json::Map<String, serde_json::Value>) -> Map<
    Seq<char>,
    ClaimValue,
>;

/// The claim set without fields.
pub open spec fn no_fields() -> Map<Seq<char>, ClaimValue> {
    Map::empty()
}

/// A claim set that holds texts and whole numbers only.
pub open spec fn plain_fields(fields: Map<Seq<char>, ClaimValue>) -> bool {
    forall|name: Seq<char>| #[trigger] fields.contains_key(name) ==> !(fields[name] is Other)
}

/// Calls `serde_json::Map::new`: an object without fields. Not proved.
#[verifier::external_body]
pub(crate) fn new_object() -> (r: serde_json::Map<String, serde_json::Value>)
    ensures
        object_fields(r) == no_fields(),
{
    serde_json::Map::new()
}

/// Calls `serde_json::Map::insert` with a text: the field of that name now
/// holds the text, whatever it held before, and no other field changes.
/// Not proved.
#[verifier::external_body]
pub(crate) fn put_text(
    object: &mut serde_json::Map<String, serde_json::Value>,
    name: &str,
    value: &str,
)
    ensures
        object_fields(*final(object)) == object_fields(*old(object)).insert(
            name@,
            ClaimValue::Text(value@),
        ),
{
    object.insert(name.to_owned(), serde_json::Value::String(value.to_owned()));
}

/// Calls `serde_json::Map::insert` with a whole number: the field of that
/// name now holds the number, whatever it held before, and no other field
/// changes. Not proved.
#[verifier::external_body]
pub(crate) fn put_number(
    object: &mut serde_json::Map<String, serde_json::Value>,
    name: &str,
    value: u64,
)
    ensures
        object_fields(*final(object)) == object_fields(*old(object)).insert(
            name@,
            ClaimValue::Number(value),
        ),
{
    object.insert(name.to_owned(), serde_json::Value::from(value));
}

/// Calls `serde_json::Map::get` and `Value::as_str`: the text of a field,
/// where the object has the field and it holds a text. Not proved.
#[verifier::external_body]
pub(crate) fn text_field(object: &serde_json::Map<String, serde_json::Value>, name: &str) -> (r:
    Option<String>)
    ensures
        r matches Some(text) ==> field_text(object_fields(*object), name@) == Some(text@),
        r is None ==> field_text(object_fields(*object), name@) is None,
{
    Some(object.get(name)?.as_str()?.to_owned())
}

/// Calls `serde_json::Map::get` and `Value::as_u64`: the number of a field,
/// where the object has the field and it holds a whole number that is not
/// negative. Not proved.
#[verifier::external_body]
pub(crate) fn number_field(object: &serde_json::Map<String, serde_json::Value>, name: &str) -> (r:
    Option<u64>)
    ensures
        r == field_number(object_fields(*object), name@),
{
    object.get(name)?.as_u64()
}

/// Calls `serde_json::Map::contains_key`: whether the object has a field of
/// that name, whatever it holds. Not proved.
#[verifier::external_body]
pub(crate) fn has_field(object: &serde_json::Map<String, serde_json::Value>, name: &str) -> (r:
    bool)
    ensures
        r == object_fields(*object).contains_key(name@),
{
    object.contains_key(name)
}

/// The text that a claim set holds under a name, if it holds one there.
pub open spec fn field_text(fields: Map<Seq<char>, ClaimValue>, name: Seq<char>) -> Option<
    Seq<char>,
> {
    if fields.contains_key(name) {
        match fields[name] {
            ClaimValue::Text(s) => Some(s),
            _ => None,
        }
    } else {
        None
    }
}

/// The number that a claim set holds under a name, if it holds one there.
pub open spec fn field_number(fields: Map<Seq<char>, ClaimValue>, name: Seq<char>) -> Option<u64> {
    if fields.contains_key(name) {
        match fields[name] {
            ClaimValue::Number(n) => Some(n),
            _ => None,
        }
    } else {
        None
    }
}

} // verus!
