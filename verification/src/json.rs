//! JSON values as the verified code sees them.
//!
//! Configuration arrives as `serde_json` values. Verus cannot look inside
//! one, so each accessor that the supervisor uses is given a name for what it
//! returns, and the contracts of the library speak of those names.

use vstd::prelude::*;
use serde_json::Value;
use crate::table::as_map;

verus! {

/// A JSON value of `serde_json`, carried through without a look inside.
#[verifier::external_type_specification]
#[verifier::external_body]
pub struct ExValue(Value);

/// A JSON object of `serde_json`, carried through without a look inside.
#[verifier::external_type_specification]
#[verifier::external_body]
#[verifier::reject_recursive_types(K)]
#[verifier::reject_recursive_types(V)]
pub struct ExObject<K, V>(serde_json::Map<K, V>);

/// The error of `serde_json`, carried through to be worded.
#[verifier::external_type_specification]
#[verifier::external_body]
pub struct ExJsonError(serde_json::Error);

/// The text of `v`, where `v` is a JSON string.
pub uninterp spec fn json_text(v: Value) -> Option<Seq<char>>;

/// The truth value of `v`, where `v` is a JSON boolean.
pub uninterp spec fn json_flag(v: Value) -> Option<bool>;

/// The number `v`, where `v` is a JSON number that fits an unsigned 64-bit
/// integer.
pub uninterp spec fn json_count(v: Value) -> Option<u64>;

/// The elements of `v` in order, where `v` is a JSON array.
pub uninterp spec fn json_items(v: Value) -> Option<Seq<Value>>;

/// The members of `v`, where `v` is a JSON object.
pub uninterp spec fn json_object(v: Value) -> Option<serde_json::Map<String, Value>>;

/// The members of the object `m` as pairs of key and value, in the order in
/// which the object hands them out.
pub uninterp spec fn object_entries(m: serde_json::Map<String, Value>) -> Seq<(Seq<char>, Value)>;

/// The value that parsing `text` as JSON gives, where `text` is valid JSON.
pub uninterp spec fn parsed_json(text: Seq<char>) -> Option<Value>;

/// The members of the object `m` as a map from key to value.
pub open spec fn object_map(m: serde_json::Map<String, Value>) -> Map<Seq<char>, Value> {
    as_map(object_entries(m))
}

/// The member `key` of `v`: none where `v` is no object or has no such member.
pub open spec fn json_member(v: Value, key: Seq<char>) -> Option<Value> {
    match json_object(v) {
        Some(m) => if object_map(m).contains_key(key) {
            Some(object_map(m)[key])
        } else {
            None
        },
        None => None,
    }
}

/// `Value::as_str` hands back the text of a JSON string and nothing for any
/// other value.
pub assume_specification[ Value::as_str ](v: &Value) -> (r: Option<&str>)
    ensures
        match r {
            Some(s) => json_text(*v) == Some(s@),
            None => json_text(*v) is None,
        },
;

/// `Value::as_bool` hands back the truth value of a JSON boolean and nothing
/// for any other value.
pub assume_specification[ Value::as_bool ](v: &Value) -> (r: Option<bool>)
    ensures
        r == json_flag(*v),
;

/// `Value::as_u64` hands back a JSON number that fits an unsigned 64-bit
/// integer and nothing for any other value.
pub assume_specification[ Value::as_u64 ](v: &Value) -> (r: Option<u64>)
    ensures
        r == json_count(*v),
;

/// `Value::as_array` hands back the elements of a JSON array and nothing for
/// any other value.
pub assume_specification[ Value::as_array ](v: &Value) -> (r: Option<&Vec<Value>>)
    ensures
        match r {
            Some(items) => json_items(*v) == Some(items@),
            None => json_items(*v) is None,
        },
;

/// `Value::as_object` hands back the members of a JSON object and nothing for
/// any other value.
pub assume_specification[ Value::as_object ](v: &Value) -> (r: Option<
    &serde_json::Map<String, Value>,
>)
    ensures
        match r {
            Some(m) => json_object(*v) == Some(*m),
            None => json_object(*v) is None,
        },
;

/// `Clone` of a `Value` gives an equal value.
pub assume_specification[ <Value as Clone>::clone ](v: &Value) -> (r: Value)
    ensures
        r == *v,
;

/// `Clone` of an object gives an equal object.
pub assume_specification[ <serde_json::Map<String, Value> as Clone>::clone ](
    m: &serde_json::Map<String, Value>,
) -> (r: serde_json::Map<String, Value>)
    ensures
        r == *m,
;

/// An object without members.
pub open spec fn empty_object() -> serde_json::Map<String, Value> {
    choose|m: serde_json::Map<String, Value>| object_entries(m).len() == 0
}

/// `Map::new` makes an object without members, and there is one such object
/// only: by the equality of `Map`, which compares the members, any two
/// objects without members are equal. What `add_server` hands back for a
/// configuration without servers is stated over this one object.
pub assume_specification[ serde_json::Map::<String, Value>::new ]() -> (r: serde_json::Map<
    String,
    Value,
>)
    ensures
        object_entries(r).len() == 0,
        forall|m: serde_json::Map<String, Value>| object_entries(m).len() == 0 ==> m == r,
;

/// `Map::get` with a string key: the value stored under `key`, if the object
/// has such a member.
#[verifier::external_body]
pub(crate) fn object_get<'a>(m: &'a serde_json::Map<String, Value>, key: &str) -> (r: Option<
    &'a Value,
>)
    ensures
        match r {
            Some(v) => object_map(*m).contains_key(key@) && object_map(*m)[key@] == *v,
            None => !object_map(*m).contains_key(key@),
        },
{
    m.get(key)
}

/// The member `key` of `v`: nothing where `v` is no object or has no such
/// member.
pub fn member<'a>(v: &'a Value, key: &str) -> (r: Option<&'a Value>)
    ensures
        match r {
            Some(found) => json_member(*v, key@) == Some(*found),
            None => json_member(*v, key@) is None,
        },
{
    match v.as_object() {
        Some(m) => object_get(m, key),
        None => None,
    }
}

/// `Map::iter`, collected: the members of the object in the order in which it
/// hands them out. No key occurs twice.
#[verifier::external_body]
pub(crate) fn object_pairs<'a>(m: &'a serde_json::Map<String, Value>) -> (r: Vec<
    (&'a String, &'a Value),
>)
    ensures
        r@.len() == object_entries(*m).len(),
        forall|i: int|
            0 <= i < r@.len() ==> (#[trigger] r@[i]).0@ == object_entries(*m)[i].0 && *r@[i].1
                == object_entries(*m)[i].1,
        forall|i: int, j: int|
            0 <= i < j < r@.len() ==> (#[trigger] r@[i]).0@ != (#[trigger] r@[j]).0@,
{
    m.iter().collect()
}

/// `serde_json::from_str` for a `Value`: the value that `text` spells, or the
/// error where `text` is no valid JSON.
#[verifier::external_body]
pub(crate) fn parse_json(text: &str) -> (r: Result<Value, serde_json::Error>)
    ensures
        match r {
            Ok(v) => parsed_json(text@) == Some(v),
            Err(_) => parsed_json(text@) is None,
        },
{
    serde_json::from_str::<Value>(text)
}

/// The message of a `serde_json::Error`, as its `Display` writes it.
#[verifier::external_body]
pub(crate) fn json_error_text(e: &serde_json::Error) -> (r: String) {
    e.to_string()
}

/// The object `m` with `value` stored under `key`.
pub uninterp spec fn object_with(
    m: serde_json::Map<String, Value>,
    key: Seq<char>,
    value: Value,
) -> serde_json::Map<String, Value>;

/// The JSON value that is the object `m`.
pub uninterp spec fn json_of_object(m: serde_json::Map<String, Value>) -> Value;

/// The text that pretty-printing `v` gives, where it can be written.
pub uninterp spec fn pretty_json(v: Value) -> Option<Seq<char>>;

/// `Map::insert` stores `value` under `key`: the member is new or replaces the
/// one of that key, and every other member stays. It hands back the value
/// that the key had before.
pub assume_specification[ serde_json::Map::<String, Value>::insert ](
    m: &mut serde_json::Map<String, Value>,
    key: String,
    value: Value,
) -> (r: Option<Value>)
    ensures
        *final(m) == object_with(*old(m), key@, value),
        object_map(*final(m)) == object_map(*old(m)).insert(key@, value),
        r == (if object_map(*old(m)).contains_key(key@) {
            Some(object_map(*old(m))[key@])
        } else {
            None
        }),
;

/// The variant `Value::Object`: the JSON value that is the object `m`.
#[verifier::external_body]
pub(crate) fn object_value(m: serde_json::Map<String, Value>) -> (r: Value)
    ensures
        r == json_of_object(m),
        json_object(r) == Some(m),
{
    Value::Object(m)
}

/// `serde_json::to_string_pretty` for a `Value`: its text with line breaks and
/// indentation, or the error where it cannot be written.
#[verifier::external_body]
pub(crate) fn write_json_pretty(v: &Value) -> (r: Result<String, serde_json::Error>)
    ensures
        match r {
            Ok(text) => pretty_json(*v) == Some(text@),
            Err(_) => pretty_json(*v) is None,
        },
{
    serde_json::to_string_pretty(v)
}

/// `Value::from` for a string slice: the JSON string with that text.
#[verifier::external_body]
pub(crate) fn text_value(text: &str) -> (r: Value)
    ensures
        json_text(r) == Some(text@),
{
    Value::from(text)
}

/// `Value::from` for an unsigned 64-bit integer: the JSON number of that
/// value.
#[verifier::external_body]
pub(crate) fn count_value(n: u64) -> (r: Value)
    ensures
        json_count(r) == Some(n),
{
    Value::from(n)
}

} // verus!
