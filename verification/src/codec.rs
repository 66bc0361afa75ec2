//! Reading typed members out of JSON values and writing them back.

use vstd::prelude::*;
use crate::error::SonoffError;
use crate::json::JsonModel;
use crate::value::{value_array, value_get, value_model, value_models, value_null, value_u64};

verus! {

/// A type that is sent as a JSON document.
pub trait ToJson {
    /// The document that stands for `self`.
    spec fn json(&self) -> JsonModel;

    /// Builds the document that stands for `self`.
    fn to_json(&self) -> (v: serde_json::Value)
        ensures
            value_model(v) == self.json(),
    ;
}

/// A type that is read from a JSON document.
pub trait FromJson: Sized {
    /// Whether `j` has the shape of this type.
    spec fn json_valid(j: JsonModel) -> bool;

    /// Whether `self` holds what `j` says, member by member.
    spec fn json_matches(&self, j: JsonModel) -> bool;

    /// Reads a value of this type; fails with `SerializationError` exactly
    /// where the document has not the shape of this type.
    fn from_json(v: &serde_json::Value) -> (r: Result<Self, SonoffError>)
        ensures
            r is Ok <==> Self::json_valid(value_model(*v)),
            r matches Ok(x) ==> x.json_matches(value_model(*v)),
            r matches Err(e) ==> e == SonoffError::SerializationError,
    ;
}

/// Whether the member `key` of `j` has the shape of a `T`.
pub open spec fn member_valid<T: FromJson>(j: JsonModel, key: Seq<char>) -> bool {
    j.member(key) matches Some(member) && T::json_valid(member)
}

/// Whether `x` holds what the member `key` of `j` says.
pub open spec fn member_matches<T: FromJson>(x: T, j: JsonModel, key: Seq<char>) -> bool {
    j.member(key) matches Some(member) && x.json_matches(member)
}

/// Whether the member `key` of `j` is an array of documents that each have
/// the shape of a `T`.
pub open spec fn list_valid<T: FromJson>(j: JsonModel, key: Seq<char>) -> bool {
    j.array_member(key) matches Some(items) && forall|i: int|
        0 <= i < items.len() ==> T::json_valid(#[trigger] items[i])
}

/// Whether `xs` holds, item by item and in order, what the array member
/// `key` of `j` says.
pub open spec fn list_matches<T: FromJson>(xs: Seq<T>, j: JsonModel, key: Seq<char>) -> bool {
    j.array_member(key) matches Some(items) && xs.len() == items.len() && forall|i: int|
        0 <= i < items.len() ==> (#[trigger] xs[i]).json_matches(items[i])
}

/// The array of integers that the member `key` of `j` is, each between 0
/// and `max`.
pub open spec fn uint_list_member(j: JsonModel, key: Seq<char>, max: int) -> Option<Seq<int>> {
    match j.array_member(key) {
        Some(items) if forall|i: int|
            0 <= i < items.len() ==> (#[trigger] items[i]).as_int(0, max) is Some => Some(
            items.map_values(|item: JsonModel| item->Int_0),
        ),
        _ => None,
    }
}

/// The array of the documents of `items`, in order.
pub open spec fn list_json<T: ToJson>(items: Seq<T>) -> JsonModel {
    JsonModel::Array(items.map_values(|item: T| item.json()))
}

/// The array of the documents of `items`, or `null` where there is none.
pub open spec fn opt_list_json<T: ToJson>(items: Option<Vec<T>>) -> JsonModel {
    match items {
        Some(items) => list_json(items@),
        None => JsonModel::Null,
    }
}

/// The integer `n`, or `null` where there is none.
pub open spec fn opt_u8_json(n: Option<u8>) -> JsonModel {
    match n {
        Some(n) => JsonModel::Int(n as int),
        None => JsonModel::Null,
    }
}

/// The string `s`, or `null` where there is none.
pub open spec fn opt_str_json(s: Option<String>) -> JsonModel {
    match s {
        Some(s) => JsonModel::Str(s@),
        None => JsonModel::Null,
    }
}

/// The view of an optional string.
pub open spec fn opt_str_view(s: Option<String>) -> Option<Seq<char>> {
    match s {
        Some(s) => Some(s@),
        None => None,
    }
}

/// Whether `s` is the text `text`.
pub fn is_text(s: &String, text: &str) -> (r: bool)
    ensures
        r == (s@ == text@),
{
    let other = text.to_owned();
    *s == other
}

/// The string member `key`.
pub fn read_str(v: &serde_json::Value, key: &str) -> (r: Result<String, SonoffError>)
    ensures
        match r {
            Ok(s) => value_model(*v).str_member(key@) == Some(s@),
            Err(e) => e == SonoffError::SerializationError && value_model(*v).str_member(key@)
                is None,
        },
{
    match value_get(v, key) {
        Some(member) => match member.as_str() {
            Some(s) => Ok(s.to_owned()),
            None => Err(SonoffError::SerializationError),
        },
        None => Err(SonoffError::SerializationError),
    }
}

/// The integer member `key`, where it lies between 0 and `max`.
pub fn read_uint(v: &serde_json::Value, key: &str, max: u64) -> (r: Result<u64, SonoffError>)
    ensures
        match r {
            Ok(n) => value_model(*v).int_member(key@, 0, max as int) == Some(n as int),
            Err(e) => e == SonoffError::SerializationError && value_model(*v).int_member(
                key@,
                0,
                max as int,
            ) is None,
        },
{
    match value_get(v, key) {
        Some(member) => match member.as_u64() {
            Some(n) => if n <= max {
                Ok(n)
            } else {
                Err(SonoffError::SerializationError)
            },
            None => Err(SonoffError::SerializationError),
        },
        None => Err(SonoffError::SerializationError),
    }
}

/// The integer member `key`, where it fits `u8`.
pub fn read_u8(v: &serde_json::Value, key: &str) -> (r: Result<u8, SonoffError>)
    ensures
        match r {
            Ok(n) => value_model(*v).int_member(key@, 0, u8::MAX as int) == Some(n as int),
            Err(e) => e == SonoffError::SerializationError && value_model(*v).int_member(
                key@,
                0,
                u8::MAX as int,
            ) is None,
        },
{
    let n = read_uint(v, key, 255)?;
    Ok(n as u8)
}

/// The integer member `key`, where it fits `u32`.
pub fn read_u32(v: &serde_json::Value, key: &str) -> (r: Result<u32, SonoffError>)
    ensures
        match r {
            Ok(n) => value_model(*v).int_member(key@, 0, u32::MAX as int) == Some(n as int),
            Err(e) => e == SonoffError::SerializationError && value_model(*v).int_member(
                key@,
                0,
                u32::MAX as int,
            ) is None,
        },
{
    let n = read_uint(v, key, 0xffff_ffff)?;
    Ok(n as u32)
}

/// The integer member `key`, where it lies between `min` and `max`.
pub fn read_int(v: &serde_json::Value, key: &str, min: i64, max: i64) -> (r: Result<
    i64,
    SonoffError,
>)
    ensures
        match r {
            Ok(n) => value_model(*v).int_member(key@, min as int, max as int) == Some(n as int),
            Err(e) => e == SonoffError::SerializationError && value_model(*v).int_member(
                key@,
                min as int,
                max as int,
            ) is None,
        },
{
    match value_get(v, key) {
        Some(member) => match member.as_i64() {
            Some(n) => if min <= n && n <= max {
                Ok(n)
            } else {
                Err(SonoffError::SerializationError)
            },
            None => Err(SonoffError::SerializationError),
        },
        None => Err(SonoffError::SerializationError),
    }
}

/// The boolean member `key`.
pub fn read_bool(v: &serde_json::Value, key: &str) -> (r: Result<bool, SonoffError>)
    ensures
        match r {
            Ok(b) => value_model(*v).bool_member(key@) == Some(b),
            Err(e) => e == SonoffError::SerializationError && value_model(*v).bool_member(key@)
                is None,
        },
{
    match value_get(v, key) {
        Some(member) => match member.as_bool() {
            Some(b) => Ok(b),
            None => Err(SonoffError::SerializationError),
        },
        None => Err(SonoffError::SerializationError),
    }
}

/// Whether a member `key` is there and is not `null`.
pub fn has_member(v: &serde_json::Value, key: &str) -> (r: bool)
    ensures
        r == value_model(*v).has(key@),
{
    match value_get(v, key) {
        Some(member) => !member.is_null(),
        None => false,
    }
}

/// The string member `key`, which may be missing or `null`.
pub fn read_opt_str(v: &serde_json::Value, key: &str) -> (r: Result<Option<String>, SonoffError>)
    ensures
        match r {
            Ok(s) => value_model(*v).opt_str_member(key@) == Some(opt_str_view(s)),
            Err(e) => e == SonoffError::SerializationError && value_model(*v).opt_str_member(
                key@,
            ) is None,
        },
{
    if has_member(v, key) {
        let s = read_str(v, key)?;
        Ok(Some(s))
    } else {
        Ok(None)
    }
}

/// The integer member `key` between `min` and `max`, which may be missing or
/// `null`.
pub fn read_opt_int(v: &serde_json::Value, key: &str, min: i64, max: i64) -> (r: Result<
    Option<i64>,
    SonoffError,
>)
    ensures
        match r {
            Ok(Some(n)) => value_model(*v).opt_int_member(key@, min as int, max as int) == Some(
                Some(n as int),
            ),
            Ok(None) => value_model(*v).opt_int_member(key@, min as int, max as int) == Some(
                None::<int>,
            ),
            Err(e) => e == SonoffError::SerializationError && value_model(*v).opt_int_member(
                key@,
                min as int,
                max as int,
            ) is None,
        },
{
    if has_member(v, key) {
        let n = read_int(v, key, min, max)?;
        Ok(Some(n))
    } else {
        Ok(None)
    }
}

/// The boolean member `key`, which may be missing or `null`.
pub fn read_opt_bool(v: &serde_json::Value, key: &str) -> (r: Result<Option<bool>, SonoffError>)
    ensures
        match r {
            Ok(b) => value_model(*v).opt_bool_member(key@) == Some(b),
            Err(e) => e == SonoffError::SerializationError && value_model(*v).opt_bool_member(
                key@,
            ) is None,
        },
{
    if has_member(v, key) {
        let b = read_bool(v, key)?;
        Ok(Some(b))
    } else {
        Ok(None)
    }
}

/// The member `key`, read as a `T`.
pub fn read_object<T: FromJson>(v: &serde_json::Value, key: &str) -> (r: Result<T, SonoffError>)
    ensures
        r is Ok <==> member_valid::<T>(value_model(*v), key@),
        r matches Ok(x) ==> member_matches(x, value_model(*v), key@),
        r matches Err(e) ==> e == SonoffError::SerializationError,
{
    match value_get(v, key) {
        Some(member) => T::from_json(member),
        None => Err(SonoffError::SerializationError),
    }
}

/// The array member `key`, each item read as a `T`.
pub fn read_list<T: FromJson>(v: &serde_json::Value, key: &str) -> (r: Result<
    Vec<T>,
    SonoffError,
>)
    ensures
        r is Ok <==> list_valid::<T>(value_model(*v), key@),
        r matches Ok(xs) ==> list_matches(xs@, value_model(*v), key@),
        r matches Err(e) ==> e == SonoffError::SerializationError,
{
    let items = match value_get(v, key) {
        Some(member) => match member.as_array() {
            Some(items) => items,
            None => { return Err(SonoffError::SerializationError); },
        },
        None => { return Err(SonoffError::SerializationError); },
    };
    let ghost models = value_models(items@);
    let mut xs: Vec<T> = Vec::new();
    let mut i: usize = 0;
    while i < items.len()
        invariant
            i <= items.len(),
            xs@.len() == i,
            models == value_models(items@),
            value_model(*v).array_member(key@) == Some(models),
            forall|k: int| 0 <= k < i ==> T::json_valid(#[trigger] models[k]),
            forall|k: int| 0 <= k < i ==> (#[trigger] xs@[k]).json_matches(models[k]),
        decreases items.len() - i,
    {
        assert(models[i as int] == value_model(items@[i as int]));
        match T::from_json(&items[i]) {
            Ok(x) => { xs.push(x); },
            Err(_) => {
                assert(0 <= i < models.len());
                assert(!T::json_valid(value_model(*v).array_member(key@)->Some_0[i as int]));
                return Err(SonoffError::SerializationError);
            },
        }
        i += 1;
    }
    Ok(xs)
}

/// The array member `key` of integers that fit `u32`.
pub fn read_u32_list(v: &serde_json::Value, key: &str) -> (r: Result<Vec<u32>, SonoffError>)
    ensures
        match r {
            Ok(xs) => uint_list_member(value_model(*v), key@, u32::MAX as int) == Some(
                xs@.map_values(|x: u32| x as int),
            ),
            Err(e) => e == SonoffError::SerializationError && uint_list_member(
                value_model(*v),
                key@,
                u32::MAX as int,
            ) is None,
        },
{
    let items = match value_get(v, key) {
        Some(member) => match member.as_array() {
            Some(items) => items,
            None => { return Err(SonoffError::SerializationError); },
        },
        None => { return Err(SonoffError::SerializationError); },
    };
    let ghost models = value_models(items@);
    let mut xs: Vec<u32> = Vec::new();
    let mut i: usize = 0;
    while i < items.len()
        invariant
            i <= items.len(),
            xs@.len() == i,
            models == value_models(items@),
            value_model(*v).array_member(key@) == Some(models),
            forall|k: int|
                0 <= k < i ==> (#[trigger] models[k]).as_int(0, u32::MAX as int) == Some(
                    xs@[k] as int,
                ),
        decreases items.len() - i,
    {
        assert(models[i as int] == value_model(items@[i as int]));
        match items[i].as_u64() {
            Some(n) => {
                if n > 0xffff_ffff {
                    return Err(SonoffError::SerializationError);
                }
                xs.push(n as u32);
            },
            None => { return Err(SonoffError::SerializationError); },
        }
        i += 1;
    }
    assert(models.map_values(|item: JsonModel| item->Int_0) =~= xs@.map_values(|x: u32| x as int));
    Ok(xs)
}

/// The array of the documents of `items`.
pub fn write_list<T: ToJson>(items: &Vec<T>) -> (v: serde_json::Value)
    ensures
        value_model(v) == list_json(items@),
{
    let mut values: Vec<serde_json::Value> = Vec::new();
    let mut i: usize = 0;
    while i < items.len()
        invariant
            i <= items.len(),
            values@.len() == i,
            forall|k: int| 0 <= k < i ==> value_model(#[trigger] values@[k]) == items@[k].json(),
        decreases items.len() - i,
    {
        values.push(items[i].to_json());
        i += 1;
    }
    assert(value_models(values@) =~= items@.map_values(|item: T| item.json()));
    value_array(values)
}

/// The array of the documents of `items`, or `null` where there is none.
pub fn write_opt_list<T: ToJson>(items: &Option<Vec<T>>) -> (v: serde_json::Value)
    ensures
        value_model(v) == opt_list_json(*items),
{
    match items {
        Some(items) => write_list(items),
        None => value_null(),
    }
}

/// The integer `n`, or `null` where there is none.
pub fn write_opt_u8(n: Option<u8>) -> (v: serde_json::Value)
    ensures
        value_model(v) == opt_u8_json(n),
{
    match n {
        Some(n) => value_u64(n as u64),
        None => value_null(),
    }
}

} // verus!
