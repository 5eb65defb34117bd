//! JSON values, as `serde_json` holds them.
//!
//! A `serde_json::Value` is carried through this crate as it is. Nothing in
//! this file is proved: each function states what the named `serde_json`
//! item does, and the rest of the crate is verified against these
//! statements.

use vstd::prelude::*;

verus! {

/// `serde_json::Value`: a JSON value. What is inside is read only through
/// the functions below.
#[verifier::external_type_specification]
#[verifier::external_body]
pub struct ExValue(serde_json::Value);

/// `serde_json::Error`: why a text did not parse or a value was not written
/// out. Nothing is read from it.
#[verifier::external_type_specification]
#[verifier::external_body]
pub struct ExError(serde_json::Error);

/// `serde_json::Map`: the members of a JSON object while it is built.
#[verifier::external_type_specification]
#[verifier::external_body]
#[verifier::reject_recursive_types(K)]
#[verifier::reject_recursive_types(V)]
pub struct ExObject<K, V>(serde_json::Map<K, V>);

/// What a JSON value is at its top level, as far as this crate reads it.
pub enum JsonShape {
    /// `null`.
    Null,
    /// `true` or `false`.
    Bool(bool),
    /// A whole number from 0 to `u64::MAX`.
    Unsigned(u64),
    /// A negative or a fractional number.
    OtherNumber,
    /// A string.
    Text(Seq<char>),
    /// An array.
    List,
    /// An object, with the value of each of its members.
    Object(Map<Seq<char>, serde_json::Value>),
}

/// What a value holds at its top level.
pub uninterp spec fn json_shape(value: serde_json::Value) -> JsonShape;

/// The members that a `serde_json::Map` holds.
pub uninterp spec fn json_entries(object: serde_json::Map<String, serde_json::Value>) -> Map<
    Seq<char>,
    serde_json::Value,
>;

/// The value that `serde_json` parses a text to, if it parses it.
pub uninterp spec fn json_parse(text: Seq<char>) -> Option<serde_json::Value>;

/// The text that `serde_json` writes a value out as.
pub uninterp spec fn json_render(value: serde_json::Value) -> Seq<char>;

/// The members of an object that has none.
pub open spec fn no_members() -> Map<Seq<char>, serde_json::Value> {
    Map::empty()
}

/// The member of an object under a name; nothing for a missing member and
/// for a value that is no object.
pub open spec fn shape_member(shape: JsonShape, name: Seq<char>) -> Option<serde_json::Value> {
    match shape {
        JsonShape::Object(members) => if members.contains_key(name) {
            Some(members[name])
        } else {
            None
        },
        _ => None,
    }
}

/// `serde_json::from_str` at `Value`: whether a text parses, and to which
/// value, depends on the text alone.
#[verifier::external_body]
pub(crate) fn parse(text: &str) -> (parsed: Result<serde_json::Value, serde_json::Error>)
    ensures
        parsed is Ok <==> json_parse(text@) is Some,
        parsed is Ok ==> json_parse(text@) == Some(parsed->Ok_0),
{
    serde_json::from_str::<serde_json::Value>(text)
}

/// `serde_json::to_string` at `Value`: the text depends on the value alone,
/// and there always is one. The writer fails only where its output fails or
/// where a key of an object is no string; here the output is a `Vec`, and
/// the keys of a `Value` are strings.
#[verifier::external_body]
pub(crate) fn render(value: &serde_json::Value) -> (text: Result<String, serde_json::Error>)
    ensures
        text is Ok && text->Ok_0@ == json_render(*value),
{
    serde_json::to_string(value)
}

/// `Value::get` with a string index: the member of that name where the value
/// is an object that has one, nothing otherwise.
#[verifier::external_body]
pub(crate) fn member<'a>(value: &'a serde_json::Value, name: &str) -> (found: Option<
    &'a serde_json::Value,
>)
    ensures
        found is Some <==> shape_member(json_shape(*value), name@) is Some,
        found is Some ==> shape_member(json_shape(*value), name@) == Some(*found->Some_0),
{
    value.get(name)
}

/// `Value::as_str`: the text of a string, nothing for any other value.
#[verifier::external_body]
pub(crate) fn as_text<'a>(value: &'a serde_json::Value) -> (text: Option<&'a str>)
    ensures
        text is Some <==> json_shape(*value) is Text,
        text is Some ==> json_shape(*value) == JsonShape::Text(text->Some_0@),
{
    value.as_str()
}

/// `Value::as_u64`: a whole number from 0 to `u64::MAX`, nothing for any
/// other value.
#[verifier::external_body]
pub(crate) fn as_unsigned(value: &serde_json::Value) -> (number: Option<u64>)
    ensures
        number is Some <==> json_shape(*value) is Unsigned,
        number is Some ==> json_shape(*value) == JsonShape::Unsigned(number->Some_0),
{
    value.as_u64()
}

/// `Value::as_bool`: the truth value of a boolean, nothing for any other
/// value.
#[verifier::external_body]
pub(crate) fn as_flag(value: &serde_json::Value) -> (flag: Option<bool>)
    ensures
        flag is Some <==> json_shape(*value) is Bool,
        flag is Some ==> json_shape(*value) == JsonShape::Bool(flag->Some_0),
{
    value.as_bool()
}

/// `Value::is_null`: whether the value is `null`.
#[verifier::external_body]
pub(crate) fn is_null(value: &serde_json::Value) -> (null: bool)
    ensures
        null <==> json_shape(*value) is Null,
{
    value.is_null()
}

/// `Value::clone`: a copy equal to the value.
pub assume_specification[ <serde_json::Value as Clone>::clone ](
    value: &serde_json::Value,
) -> (copy: serde_json::Value)
    ensures
        copy == *value,
;

/// `Value::Null`.
#[verifier::external_body]
pub(crate) fn null_value() -> (value: serde_json::Value)
    ensures
        json_shape(value) == JsonShape::Null,
{
    serde_json::Value::Null
}

/// `Value::Bool`.
#[verifier::external_body]
pub(crate) fn flag_value(flag: bool) -> (value: serde_json::Value)
    ensures
        json_shape(value) == JsonShape::Bool(flag),
{
    serde_json::Value::Bool(flag)
}

/// `Value::String`.
#[verifier::external_body]
pub(crate) fn text_value(text: String) -> (value: serde_json::Value)
    ensures
        json_shape(value) == JsonShape::Text(text@),
{
    serde_json::Value::String(text)
}

/// `Value::from` at `u32`: the number itself, which is whole and not
/// negative.
#[verifier::external_body]
pub(crate) fn number_value(number: u32) -> (value: serde_json::Value)
    ensures
        json_shape(value) == JsonShape::Unsigned(number as u64),
{
    serde_json::Value::from(number)
}

/// `Map::new`: an object without members.
#[verifier::external_body]
pub(crate) fn empty_object() -> (object: serde_json::Map<String, serde_json::Value>)
    ensures
        json_entries(object) == no_members(),
{
    serde_json::Map::new()
}

/// `Map::insert`: the member of that name is set, in place of an earlier one
/// if there was one; the other members stay.
#[verifier::external_body]
pub(crate) fn put_member(
    object: &mut serde_json::Map<String, serde_json::Value>,
    name: String,
    value: serde_json::Value,
)
    ensures
        json_entries(*final(object)) == json_entries(*old(object)).insert(name@, value),
{
    object.insert(name, value);
}

/// `Value::Object`: the object that holds the map's members.
#[verifier::external_body]
pub(crate) fn object_value(object: serde_json::Map<String, serde_json::Value>) -> (value:
    serde_json::Value)
    ensures
        json_shape(value) == JsonShape::Object(json_entries(object)),
{
    serde_json::Value::Object(object)
}

} // verus!
