//! The boundary with `serde_json`.
//!
//! Records are kept as `serde_json` values, so that what is stored is what
//! the rest of the program reads and writes. Verus cannot look inside such a
//! value; this module gives each value a mathematical model and states, for
//! the handful of `serde_json` operations the library calls, how they act on
//! that model. Everything in this module is assumed, not proved.

use serde_json::Value;
use vstd::prelude::*;

verus! {

/// `serde_json::Value`, any JSON value. Nothing is known of what is inside
/// one but what `json_of` says.
#[verifier::external_type_specification]
#[verifier::external_body]
pub struct ExValue(serde_json::Value);

/// `serde_json::Map`, the members of a JSON object. Nothing is known of
/// what is inside one but what `members_of` says.
#[verifier::external_type_specification]
#[verifier::external_body]
#[verifier::reject_recursive_types(K)]
#[verifier::reject_recursive_types(V)]
pub struct ExMap<K, V>(serde_json::Map<K, V>);

/// The members of a JSON object: `serde_json`'s map from key to value.
pub type Record = serde_json::Map<String, Value>;

/// What a JSON value holds, as far as the library reads it.
pub enum Json {
    /// A string.
    Text(Seq<char>),
    /// A number that `serde_json` holds as an integer.
    Integer(int),
    /// An object, by the models of its members.
    Object(Map<Seq<char>, Json>),
    /// Anything else: null, a boolean, a number that `serde_json` holds as
    /// a float, an array.
    Other,
}

/// What a `serde_json::Value` holds: the text of `Value::String`, the
/// number of a `Value::Number` that is an integer, the members of
/// `Value::Object`.
pub uninterp spec fn json_of(v: Value) -> Json;

/// What a `serde_json::Map` holds: under the text of every key, what the
/// value bound to it holds.
pub uninterp spec fn members_of(m: Record) -> Map<Seq<char>, Json>;

/// `Map::new` makes a map without members.
pub assume_specification[ serde_json::Map::<String, Value>::new ]() -> (m: serde_json::Map<
    String,
    Value,
>)
    ensures
        members_of(m) =~= Map::empty(),
;

/// `Map::insert` binds the key to the value, replacing what was bound to it,
/// leaves every other member alone, and hands back the value that was
/// replaced, if there was one.
pub assume_specification[ serde_json::Map::<String, Value>::insert ](
    m: &mut serde_json::Map<String, Value>,
    k: String,
    v: Value,
) -> (replaced: Option<Value>)
    ensures
        members_of(*final(m)) == members_of(*old(m)).insert(k@, json_of(v)),
        match replaced {
            Some(before) => members_of(*old(m)).contains_key(k@) && json_of(before)
                == members_of(*old(m))[k@],
            None => !members_of(*old(m)).contains_key(k@),
        },
;

/// `Value::as_str` gives the text of a string and `None` for every other
/// value.
pub assume_specification[ serde_json::Value::as_str ](v: &Value) -> (found: Option<&str>)
    ensures
        match found {
            Some(t) => json_of(*v) == Json::Text(t@),
            None => !(json_of(*v) is Text),
        },
;

/// `Value::as_i64` gives an integer that fits in `i64`, and `None` for a
/// larger integer and for every value that is no integer.
pub assume_specification[ serde_json::Value::as_i64 ](v: &Value) -> (found: Option<i64>)
    ensures
        match found {
            Some(n) => json_of(*v) == Json::Integer(n as int),
            None => !(json_of(*v) matches Json::Integer(n) && i64::MIN <= n <= i64::MAX),
        },
;

/// `Value::get` with a string key: the member of that name where the value
/// is an object that has one, `None` otherwise.
#[verifier::external_body]
pub(crate) fn member<'a>(v: &'a Value, key: &str) -> (found: Option<&'a Value>)
    ensures
        match found {
            Some(x) => json_of(*v) matches Json::Object(m) && m.contains_key(key@) && json_of(*x)
                == m[key@],
            None => !(json_of(*v) matches Json::Object(m) && m.contains_key(key@)),
        },
{
    v.get(key)
}

/// `Value::Object`: the object with the given members.
#[verifier::external_body]
pub(crate) fn object(members: Record) -> (v: Value)
    ensures
        json_of(v) == Json::Object(members_of(members)),
{
    Value::Object(members)
}

/// `Value::String`: the string with the given text.
#[verifier::external_body]
pub(crate) fn text(s: String) -> (v: Value)
    ensures
        json_of(v) == Json::Text(s@),
{
    Value::String(s)
}

/// `Value::from` an `i64`: the integer number of that value.
#[verifier::external_body]
pub(crate) fn number(n: i64) -> (v: Value)
    ensures
        json_of(v) == Json::Integer(n as int),
{
    Value::from(n)
}

} // verus!
