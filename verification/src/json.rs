//! The JSON document model and the boundary to `serde_json`.
//!
//! JSON values are held as `serde_json::Value` and JSON objects as
//! `serde_json::Map<String, Value>`. Verus cannot look inside either, so the
//! contracts of this crate speak of a document through [`json_of`] and of an
//! object through [`entries_of`]: the mathematical tree that the value holds.
//! Everything below the section "Trusted boundary" is believed, not proved;
//! each item there says which `serde_json` function it stands for.

use serde_json::Value;
use vstd::prelude::*;

verus! {

/// A JSON object as `serde_json` holds it.
pub type JsonObject = serde_json::Map<String, Value>;

/// A JSON number. `serde_json` keeps a number either as an integer (between
/// `i64::MIN` and `u64::MAX`) or as a finite double; a double is identified
/// here by its bit pattern and is never read by this crate.
pub ghost enum JsonNumber {
    Integer(int),
    Double(u64),
}

/// A JSON document as a mathematical value.
pub ghost enum Json {
    Null,
    Bool(bool),
    Number(JsonNumber),
    String(Seq<char>),
    Array(Seq<Json>),
    Object(Map<Seq<char>, Json>),
}

impl Json {
    /// The document that is the integer `n`.
    pub open spec fn integer(n: int) -> Json {
        Json::Number(JsonNumber::Integer(n))
    }

    /// The integer that the document is, if it is one.
    pub open spec fn as_integer(self) -> Option<int> {
        match self {
            Json::Number(JsonNumber::Integer(n)) => Some(n),
            _ => None,
        }
    }

    /// Whether the document is an object with a member named `key`.
    pub open spec fn has_member(self, key: Seq<char>) -> bool {
        self matches Json::Object(members) && members.contains_key(key)
    }

    /// The member named `key` of an object.
    pub open spec fn member(self, key: Seq<char>) -> Json
        recommends
            self.has_member(key),
    {
        self->Object_0[key]
    }
}

/// The members of the empty object.
pub open spec fn no_members() -> Map<Seq<char>, Json> {
    Map::empty()
}

/// The documents held by a sequence of values, in order.
pub open spec fn jsons_of(items: Seq<Value>) -> Seq<Json> {
    Seq::new(items.len(), |i: int| json_of(items[i]))
}

// ---------------------------------------------------------------------------
// Trusted boundary
// ---------------------------------------------------------------------------

#[verifier::external_type_specification]
#[verifier::external_body]
pub struct ExValue(serde_json::Value);

#[verifier::external_type_specification]
#[verifier::external_body]
#[verifier::reject_recursive_types(K)]
#[verifier::reject_recursive_types(V)]
pub struct ExObject<K, V>(serde_json::Map<K, V>);

/// The document that a `serde_json::Value` holds.
pub uninterp spec fn json_of(v: Value) -> Json;

/// The members that a `serde_json::Map` holds, by name.
pub uninterp spec fn entries_of(m: JsonObject) -> Map<Seq<char>, Json>;

/// `Value::Null`: the null document.
#[verifier::external_body]
pub(crate) fn json_null() -> (v: Value)
    ensures
        json_of(v) == Json::Null,
{
    Value::Null
}

/// `Value::String`: the string document with the text of `s`.
#[verifier::external_body]
pub(crate) fn json_string(s: String) -> (v: Value)
    ensures
        json_of(v) == Json::String(s@),
{
    Value::String(s)
}

/// `Value::Array`: the array document whose items are those of `items`, in
/// order.
#[verifier::external_body]
pub(crate) fn json_array(items: Vec<Value>) -> (v: Value)
    ensures
        json_of(v) == Json::Array(jsons_of(items@)),
{
    Value::Array(items)
}

/// `Value::Object`: the object document whose members are those of `members`.
#[verifier::external_body]
pub(crate) fn json_object(members: JsonObject) -> (v: Value)
    ensures
        json_of(v) == Json::Object(entries_of(members)),
{
    Value::Object(members)
}

/// `Value::from(i64)`: `serde_json` stores any `i64` as an integer number.
#[verifier::external_body]
pub(crate) fn json_i64(n: i64) -> (v: Value)
    ensures
        json_of(v) == Json::integer(n as int),
{
    Value::from(n)
}

/// `Value::from(u64)`: `serde_json` stores any `u64` as an integer number.
#[verifier::external_body]
pub(crate) fn json_u64(n: u64) -> (v: Value)
    ensures
        json_of(v) == Json::integer(n as int),
{
    Value::from(n)
}

/// `Value::clone` yields a value that holds the same document.
pub assume_specification[ <serde_json::Value as Clone>::clone ](v: &Value) -> (r: Value)
    ensures
        json_of(r) == json_of(*v),
;

/// `Map::clone` yields a map that holds the same members.
pub assume_specification[ <serde_json::Map<String, Value> as Clone>::clone ](
    m: &serde_json::Map<String, Value>,
) -> (r: serde_json::Map<String, Value>)
    ensures
        entries_of(r) == entries_of(*m),
;

/// `Value::is_null`: whether the value is `Value::Null`.
pub assume_specification[ serde_json::Value::is_null ](v: &Value) -> (b: bool)
    ensures
        b == (json_of(*v) == Json::Null),
;

/// `Value::as_bool`: the boolean of `Value::Bool`, `None` for any other value.
pub assume_specification[ serde_json::Value::as_bool ](v: &Value) -> (r: Option<bool>)
    ensures
        r == match json_of(*v) {
            Json::Bool(b) => Some(b),
            _ => None,
        },
;

/// `Value::as_i64`: the integer of a number that is an integer and fits
/// `i64`; `None` for a larger integer, a double, or a value that is no number.
pub assume_specification[ serde_json::Value::as_i64 ](v: &Value) -> (r: Option<i64>)
    ensures
        r == match json_of(*v).as_integer() {
            Some(n) if i64::MIN <= n <= i64::MAX => Some(n as i64),
            _ => None,
        },
;

/// `Value::as_u64`: the integer of a number that is an integer and fits
/// `u64`; `None` for a negative integer, a double, or a value that is no
/// number.
pub assume_specification[ serde_json::Value::as_u64 ](v: &Value) -> (r: Option<u64>)
    ensures
        r == match json_of(*v).as_integer() {
            Some(n) if 0 <= n <= u64::MAX => Some(n as u64),
            _ => None,
        },
;

/// `Value::as_str`: the text of `Value::String`, `None` for any other value.
pub assume_specification<'a>[ serde_json::Value::as_str ](v: &'a Value) -> (r: Option<&'a str>)
    ensures
        match json_of(*v) {
            Json::String(text) => r matches Some(s) && s@ == text,
            _ => r is None,
        },
;

/// `Value::as_array`: the items of `Value::Array`, `None` for any other
/// value.
pub assume_specification<'a>[ serde_json::Value::as_array ](v: &'a Value) -> (r: Option<
    &'a Vec<Value>,
>)
    ensures
        match json_of(*v) {
            Json::Array(items) => r matches Some(a) && jsons_of(a@) == items,
            _ => r is None,
        },
;

/// `Value::as_object`: the members of `Value::Object`, `None` for any other
/// value.
pub assume_specification<'a>[ serde_json::Value::as_object ](v: &'a Value) -> (r: Option<
    &'a serde_json::Map<String, Value>,
>)
    ensures
        match json_of(*v) {
            Json::Object(members) => r matches Some(m) && entries_of(*m) == members,
            _ => r is None,
        },
;

/// `Map::new`: a map without members.
pub assume_specification[ serde_json::Map::<String, Value>::new ]() -> (m: serde_json::Map<
    String,
    Value,
>)
    ensures
        entries_of(m) == no_members(),
;

/// `Map::insert`: sets the member named `k` to `v`, whether or not the map had
/// such a member, and leaves the other members as they were.
pub assume_specification[ serde_json::Map::<String, Value>::insert ](
    m: &mut serde_json::Map<String, Value>,
    k: String,
    v: Value,
) -> (previous: Option<Value>)
    ensures
        entries_of(*final(m)) == entries_of(*old(m)).insert(k@, json_of(v)),
;

/// `Map::get` with a `&str` key: the member of that name, `None` where the
/// map has none.
#[verifier::external_body]
pub(crate) fn object_get<'a>(m: &'a JsonObject, key: &str) -> (r: Option<&'a Value>)
    ensures
        match r {
            Some(v) => entries_of(*m).contains_key(key@) && json_of(*v) == entries_of(*m)[key@],
            None => !entries_of(*m).contains_key(key@),
        },
{
    m.get(key)
}

} // verus!
