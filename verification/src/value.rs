//! The bridge to `serde_json`: its `Value` carries every JSON document of the
//! library, and its parser and printer turn text into values and back.
//!
//! Nothing in this file is proved. Each item states what the named item of
//! `serde_json` does, over [`value_model`], [`json_parse`] and [`json_text`].

use vstd::prelude::*;
use crate::json::JsonModel;

verus! {

/// `serde_json::Value`, a JSON document in memory. Nothing is seen of what
/// is inside but through the items below.
#[verifier::external_type_specification]
#[verifier::external_body]
pub struct ExValue(serde_json::Value);

/// `serde_json::Error`, what the parser and the printer fail with. It is
/// carried, never read.
#[verifier::external_type_specification]
#[verifier::external_body]
pub struct ExJsonError(serde_json::Error);

/// The document that a `serde_json::Value` holds.
pub uninterp spec fn value_model(v: serde_json::Value) -> JsonModel;

/// What `serde_json::from_str` makes of a text: the document it denotes, or
/// `None` where it rejects the text.
pub uninterp spec fn json_parse(text: Seq<char>) -> Option<JsonModel>;

/// The compact text that `serde_json::to_string` writes for a document, or
/// `None` where it fails.
pub uninterp spec fn json_text(j: JsonModel) -> Option<Seq<char>>;

/// The documents of a vector of values, in order.
pub open spec fn value_models(items: Seq<serde_json::Value>) -> Seq<JsonModel> {
    items.map_values(|v: serde_json::Value| value_model(v))
}

/// `serde_json::from_str` at type `Value`: the parsed document, or the
/// parser's error.
#[verifier::external_body]
pub(crate) fn value_from_str(text: &str) -> (r: Result<serde_json::Value, serde_json::Error>)
    ensures
        match r {
            Ok(v) => json_parse(text@) == Some(value_model(v)),
            Err(_) => json_parse(text@) is None,
        },
{
    serde_json::from_str::<serde_json::Value>(text)
}

/// `serde_json::to_string` on a `Value`: its compact text, or the printer's
/// error.
#[verifier::external_body]
pub(crate) fn value_to_string(v: &serde_json::Value) -> (r: Result<String, serde_json::Error>)
    ensures
        match r {
            Ok(text) => json_text(value_model(*v)) == Some(text@),
            Err(_) => json_text(value_model(*v)) is None,
        },
{
    serde_json::to_string(v)
}

/// `Value::clone` copies the whole document.
pub assume_specification[ <serde_json::Value as Clone>::clone ](v: &serde_json::Value) -> (r:
    serde_json::Value)
    ensures
        value_model(r) == value_model(*v),
;

/// `Value::is_null` tells whether the value is `null`.
pub assume_specification[ serde_json::Value::is_null ](v: &serde_json::Value) -> (r: bool)
    ensures
        r == (value_model(*v) is Null),
;

/// `Value::as_bool` gives the boolean, and `None` for every other value.
pub assume_specification[ serde_json::Value::as_bool ](v: &serde_json::Value) -> (r: Option<bool>)
    ensures
        r == value_model(*v).as_bool(),
;

/// `Value::as_u64` gives an integer that fits `u64`, and `None` for every
/// other value.
pub assume_specification[ serde_json::Value::as_u64 ](v: &serde_json::Value) -> (r: Option<u64>)
    ensures
        match r {
            Some(n) => value_model(*v).as_int(0, u64::MAX as int) == Some(n as int),
            None => value_model(*v).as_int(0, u64::MAX as int) is None,
        },
;

/// `Value::as_i64` gives an integer that fits `i64`, and `None` for every
/// other value.
pub assume_specification[ serde_json::Value::as_i64 ](v: &serde_json::Value) -> (r: Option<i64>)
    ensures
        match r {
            Some(n) => value_model(*v).as_int(i64::MIN as int, i64::MAX as int) == Some(n as int),
            None => value_model(*v).as_int(i64::MIN as int, i64::MAX as int) is None,
        },
;

/// `Value::as_str` gives the text of a string, and `None` for every other
/// value.
pub assume_specification<'a>[ serde_json::Value::as_str ](v: &'a serde_json::Value) -> (r: Option<
    &'a str,
>)
    ensures
        match r {
            Some(s) => value_model(*v).as_str() == Some(s@),
            None => value_model(*v).as_str() is None,
        },
;

/// `Value::as_array` gives the items of an array, and `None` for every other
/// value.
pub assume_specification<'a>[ serde_json::Value::as_array ](v: &'a serde_json::Value) -> (r:
    Option<&'a Vec<serde_json::Value>>)
    ensures
        match r {
            Some(items) => value_model(*v).as_array() == Some(value_models(items@)),
            None => value_model(*v).as_array() is None,
        },
;

/// `Value::get` with a string index: the member of that name, where the value
/// is an object that has one.
#[verifier::external_body]
pub(crate) fn value_get<'a>(v: &'a serde_json::Value, key: &str) -> (r: Option<
    &'a serde_json::Value,
>)
    ensures
        match r {
            Some(member) => value_model(*v).member(key@) == Some(value_model(*member)),
            None => value_model(*v).member(key@) is None,
        },
{
    v.get(key)
}

/// `Value::Null`.
#[verifier::external_body]
pub(crate) fn value_null() -> (r: serde_json::Value)
    ensures
        value_model(r) == JsonModel::Null,
{
    serde_json::Value::Null
}

/// `Value::from` on a `u64`: that integer.
#[verifier::external_body]
pub(crate) fn value_u64(n: u64) -> (r: serde_json::Value)
    ensures
        value_model(r) == JsonModel::Int(n as int),
{
    serde_json::Value::from(n)
}

/// `Value::from` on a `&str`: a string of that text.
#[verifier::external_body]
pub(crate) fn value_str(s: &str) -> (r: serde_json::Value)
    ensures
        value_model(r) == JsonModel::Str(s@),
{
    serde_json::Value::from(s)
}

/// `Value::Array` on the items given.
#[verifier::external_body]
pub(crate) fn value_array(items: Vec<serde_json::Value>) -> (r: serde_json::Value)
    ensures
        value_model(r) == JsonModel::Array(value_models(items@)),
{
    serde_json::Value::Array(items)
}

/// `Value::Object` on `Map::new()`: the object without members.
#[verifier::external_body]
pub(crate) fn value_object() -> (r: serde_json::Value)
    ensures
        value_model(r) == JsonModel::empty_object(),
{
    serde_json::Value::Object(serde_json::Map::new())
}

/// `Map::insert` on the members of an object: sets `key` to `member`, in
/// place of an earlier member of that name.
#[verifier::external_body]
pub(crate) fn value_insert(object: &mut serde_json::Value, key: &str, member: serde_json::Value)
    requires
        value_model(*old(object)) is Object,
    ensures
        value_model(*final(object)) == value_model(*old(object)).with(key@, value_model(member)),
{
    if let serde_json::Value::Object(members) = object {
        members.insert(key.to_owned(), member);
    }
}

/// `Map::remove` on the members of an object: drops the member `key`, if
/// there is one.
#[verifier::external_body]
pub(crate) fn value_remove(object: &mut serde_json::Value, key: &str)
    requires
        value_model(*old(object)) is Object,
    ensures
        value_model(*final(object)) == value_model(*old(object)).without(key@),
{
    if let serde_json::Value::Object(members) = object {
        members.remove(key);
    }
}

} // verus!
