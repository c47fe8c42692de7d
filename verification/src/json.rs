//! The JSON detail values that diagnostic results carry: the lookups the
//! fix planner makes in them, and how summaries build them.

use vstd::prelude::*;

verus! {

/// `serde_json::Value`, carried as an opaque value.
#[verifier::external_type_specification]
#[verifier::external_body]
pub struct ExJsonValue(serde_json::Value);

/// Cloning a JSON value gives an equal value (the derived `Clone` of
/// `serde_json::Value` copies every variant and its contents).
pub assume_specification[ <serde_json::Value as Clone>::clone ](v: &serde_json::Value) -> (r:
    serde_json::Value)
    ensures
        r == *v,
;

/// What `serde_json::Value::get` returns for an object member lookup by key.
pub uninterp spec fn json_member(v: serde_json::Value, key: Seq<char>) -> Option<serde_json::Value>;

/// What `serde_json::Value::as_str` returns.
pub uninterp spec fn json_as_str(v: serde_json::Value) -> Option<Seq<char>>;

/// What `serde_json::Value::as_u64` returns.
pub uninterp spec fn json_as_u64(v: serde_json::Value) -> Option<u64>;

/// `serde_json::Value::get` with a string key: the member of that name when
/// the value is an object that has it, otherwise nothing. The result is named
/// by `json_member` of the value and the key.
#[verifier::external_body]
pub(crate) fn json_get(v: &serde_json::Value, key: &str) -> (r: Option<serde_json::Value>)
    ensures
        r == json_member(*v, key@),
{
    v.get(key).cloned()
}

/// `serde_json::Value::as_str`: the text of a string value, otherwise
/// nothing; named by `json_as_str`.
#[verifier::external_body]
pub(crate) fn json_str(v: &serde_json::Value) -> (r: Option<String>)
    ensures
        match r {
            Some(s) => json_as_str(*v) == Some(s@),
            None => json_as_str(*v) is None,
        },
{
    v.as_str().map(|s| s.to_string())
}

/// `serde_json::Value::as_u64`: the number of a value that holds a
/// non-negative integer fitting in `u64`, otherwise nothing; named by
/// `json_as_u64`.
#[verifier::external_body]
pub(crate) fn json_u64(v: &serde_json::Value) -> (r: Option<u64>)
    ensures
        r == json_as_u64(*v),
{
    v.as_u64()
}

/// The text stored under `key`, when the value is an object whose member
/// `key` is a string.
pub open spec fn json_str_at(v: serde_json::Value, key: Seq<char>) -> Option<Seq<char>> {
    match json_member(v, key) {
        Some(m) => json_as_str(m),
        None => None,
    }
}

/// The unsigned number stored under `key`.
pub open spec fn json_u64_at(v: serde_json::Value, key: Seq<char>) -> Option<u64> {
    match json_member(v, key) {
        Some(m) => json_as_u64(m),
        None => None,
    }
}

/// Looks up a string member of a JSON object.
pub fn str_member(v: &serde_json::Value, key: &str) -> (r: Option<String>)
    ensures
        match r {
            Some(s) => json_str_at(*v, key@) == Some(s@),
            None => json_str_at(*v, key@) is None,
        },
{
    match json_get(v, key) {
        Some(m) => json_str(&m),
        None => None,
    }
}

/// Looks up an unsigned-number member of a JSON object.
pub fn u64_member(v: &serde_json::Value, key: &str) -> (r: Option<u64>)
    ensures
        r == json_u64_at(*v, key@),
{
    match json_get(v, key) {
        Some(m) => json_u64(&m),
        None => None,
    }
}

/// Whether a JSON value is an object.
pub uninterp spec fn json_is_object(v: serde_json::Value) -> bool;

/// The JSON array of the given values, in order.
pub uninterp spec fn json_array_of(items: Seq<serde_json::Value>) -> serde_json::Value;

/// An empty JSON object (`Value::Object(Map::new())`): an object without
/// members.
#[verifier::external_body]
pub(crate) fn json_empty_object() -> (r: serde_json::Value)
    ensures
        json_is_object(r),
        forall|k: Seq<char>| #[trigger] json_member(r, k) is None,
{
    serde_json::Value::Object(serde_json::Map::new())
}

/// Inserts a member into a JSON object (`Map::insert` on the object's map),
/// replacing a member of the same name; a value that is not an object is
/// left as it is.
#[verifier::external_body]
pub(crate) fn json_insert(obj: &mut serde_json::Value, key: String, value: serde_json::Value)
    ensures
        json_is_object(*old(obj)) ==> {
            &&& json_is_object(*final(obj))
            &&& json_member(*final(obj), key@) == Some(value)
            &&& forall|k: Seq<char>| k != key@ ==> #[trigger] json_member(*final(obj), k) == json_member(*old(obj), k)
        },
        !json_is_object(*old(obj)) ==> *final(obj) == *old(obj),
{
    if let Some(m) = obj.as_object_mut() {
        m.insert(key, value);
    }
}

/// A JSON string (`Value::String`).
#[verifier::external_body]
pub(crate) fn json_string(s: String) -> (r: serde_json::Value)
    ensures
        json_as_str(r) == Some(s@),
{
    serde_json::Value::String(s)
}

/// A JSON array (`Value::Array`); named by `json_array_of`.
#[verifier::external_body]
pub(crate) fn json_array(items: Vec<serde_json::Value>) -> (r: serde_json::Value)
    ensures
        r == json_array_of(items@),
{
    serde_json::Value::Array(items)
}

} // verus!
