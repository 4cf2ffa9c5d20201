//! The boundary with `serde_json`.
//!
//! JSON text is read and written by `serde_json`, and a document in memory is
//! a `serde_json::Value`. Verus sees neither the inside of such a value nor
//! the code that handles it, so this module gives each thing the library asks
//! of a value a name that contracts can use, and states of each `serde_json`
//! function it calls how its result relates to those names. Nothing in this
//! module is proved: it is what the rest of the crate is proved from.

use vstd::prelude::*;

verus! {

/// A JSON document in memory.
#[verifier::external_type_specification]
#[verifier::external_body]
pub struct ExValue(serde_json::Value);

/// The members of a JSON object, by key.
#[verifier::external_type_specification]
#[verifier::external_body]
#[verifier::reject_recursive_types(K)]
#[verifier::reject_recursive_types(V)]
pub struct ExObject<K, V>(serde_json::Map<K, V>);

/// Why a text could not be read as JSON, or a value not be written.
#[verifier::external_type_specification]
#[verifier::external_body]
pub struct ExError(serde_json::Error);

/// What `serde_json::from_str` makes of a text: the document, or the error.
pub uninterp spec fn parsed(text: Seq<char>) -> Result<serde_json::Value, serde_json::Error>;

/// What `serde_json::to_string` makes of a document: its text, or the error.
pub uninterp spec fn rendered(value: serde_json::Value) -> Result<Seq<char>, serde_json::Error>;

/// The message that an error displays.
pub uninterp spec fn error_text(error: serde_json::Error) -> Seq<char>;

/// The members of `value` by key if it is an object, `None` if it is
/// anything else.
pub uninterp spec fn object_of(value: serde_json::Value) -> Option<Map<Seq<char>, serde_json::Value>>;

/// The members that `object` holds, by key.
pub uninterp spec fn entries(object: serde_json::Map<String, serde_json::Value>) -> Map<
    Seq<char>,
    serde_json::Value,
>;

/// The integer that `value` is, if it is a number that fits an `i64` exactly.
pub uninterp spec fn integer_of(value: serde_json::Value) -> Option<i64>;

/// The characters of `value` if it is a string.
pub uninterp spec fn text_of(value: serde_json::Value) -> Option<Seq<char>>;

/// The truth value that `value` is, if it is `true` or `false`.
pub uninterp spec fn flag_of(value: serde_json::Value) -> Option<bool>;

/// Whether `value` is JSON's `null`.
pub uninterp spec fn holds_null(value: serde_json::Value) -> bool;

/// The member of `value` under `key`: `None` if `value` is no object or has
/// no such member.
pub open spec fn member(value: serde_json::Value, key: Seq<char>) -> Option<serde_json::Value> {
    match object_of(value) {
        Some(members) => if members.contains_key(key) {
            Some(members[key])
        } else {
            None
        },
        None => None,
    }
}

/// The members of an object that has none.
pub open spec fn no_members() -> Map<Seq<char>, serde_json::Value> {
    Map::empty()
}

/// `serde_json::from_str`, reading a whole text as one `Value`. The result
/// depends on the text alone; the contract gives it its name.
#[verifier::external_body]
pub(crate) fn from_text(text: &str) -> (result: Result<serde_json::Value, serde_json::Error>)
    ensures
        result == parsed(text@),
{
    serde_json::from_str::<serde_json::Value>(text)
}

/// `serde_json::to_string` on a `Value`. The result depends on the value
/// alone; the contract gives its text its name and hands the error on.
#[verifier::external_body]
pub(crate) fn to_text(value: &serde_json::Value) -> (result: Result<String, serde_json::Error>)
    ensures
        match result {
            Ok(text) => rendered(*value) == Ok::<Seq<char>, serde_json::Error>(text@),
            Err(error) => rendered(*value) == Err::<Seq<char>, serde_json::Error>(error),
        },
{
    serde_json::to_string(value)
}

/// The `Display` of `serde_json::Error`, through `to_string`: the message
/// depends on the error alone, and the contract gives it its name.
#[verifier::external_body]
pub(crate) fn error_message(error: &serde_json::Error) -> (message: String)
    ensures
        message@ == error_text(*error),
{
    error.to_string()
}

/// `Value::get` with a string index: the member under `key` where the value
/// is an object that has one, `None` for any other value or key.
#[verifier::external_body]
pub(crate) fn get_member<'a>(value: &'a serde_json::Value, key: &str) -> (found: Option<
    &'a serde_json::Value,
>)
    ensures
        match found {
            Some(inner) => member(*value, key@) == Some(*inner),
            None => member(*value, key@).is_none(),
        },
{
    value.get(key)
}

/// `Value::is_object`: whether the value is an object.
pub assume_specification[ serde_json::Value::is_object ](value: &serde_json::Value) -> (yes: bool)
    ensures
        yes == object_of(*value).is_some(),
;

/// `Value::as_i64`: the integer, for a number that is an integer and fits
/// an `i64`; `None` for a larger integer, a fraction or any other value.
pub assume_specification[ serde_json::Value::as_i64 ](value: &serde_json::Value) -> (integer:
    Option<i64>)
    ensures
        integer == integer_of(*value),
;

/// `Value::as_str`: the string's characters, `None` for any other value.
pub assume_specification<'a>[ serde_json::Value::as_str ](value: &'a serde_json::Value) -> (text:
    Option<&'a str>)
    ensures
        match text {
            Some(characters) => text_of(*value) == Some(characters@),
            None => text_of(*value).is_none(),
        },
;

/// `Value::as_bool`: the truth value, `None` for any value but `true` and
/// `false`.
pub assume_specification[ serde_json::Value::as_bool ](value: &serde_json::Value) -> (flag:
    Option<bool>)
    ensures
        flag == flag_of(*value),
;

/// `Value::is_null`: whether the value is `null`.
pub assume_specification[ serde_json::Value::is_null ](value: &serde_json::Value) -> (yes: bool)
    ensures
        yes == holds_null(*value),
;

/// `Map::new`: an object without members.
#[verifier::external_body]
pub(crate) fn new_object() -> (object: serde_json::Map<String, serde_json::Value>)
    ensures
        entries(object) == no_members(),
{
    serde_json::Map::new()
}

/// `Map::insert`: the object then holds `value` under `key` and is otherwise
/// as before. What was under `key` before is dropped.
#[verifier::external_body]
pub(crate) fn set_member(
    object: &mut serde_json::Map<String, serde_json::Value>,
    key: String,
    value: serde_json::Value,
)
    ensures
        entries(*final(object)) == entries(*old(object)).insert(key@, value),
{
    object.insert(key, value);
}

/// `Value::from` an `i64`: a number that reads back as that integer.
#[verifier::external_body]
pub(crate) fn integer_value(integer: i64) -> (value: serde_json::Value)
    ensures
        integer_of(value) == Some(integer),
{
    serde_json::Value::from(integer)
}

/// The variant `Value::Bool`: reads back as that truth value.
#[verifier::external_body]
pub(crate) fn flag_value(flag: bool) -> (value: serde_json::Value)
    ensures
        flag_of(value) == Some(flag),
{
    serde_json::Value::Bool(flag)
}

/// The variant `Value::String`: reads back as those characters.
#[verifier::external_body]
pub(crate) fn text_value(text: String) -> (value: serde_json::Value)
    ensures
        text_of(value) == Some(text@),
{
    serde_json::Value::String(text)
}

/// The variant `Value::Object`: an object with the members of `object`.
#[verifier::external_body]
pub(crate) fn object_value(object: serde_json::Map<String, serde_json::Value>) -> (value:
    serde_json::Value)
    ensures
        object_of(value) == Some(entries(object)),
{
    serde_json::Value::Object(object)
}

} // verus!
