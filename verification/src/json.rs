//! The few JSON operations the library needs, on `serde_json::Value`.
use vstd::prelude::*;
use serde_json::Value;

verus! {

/// The JSON string holding the given characters.
pub uninterp spec fn json_string_value(s: Seq<char>) -> Value;

/// The JSON object with the given entries, in order; a later entry for a key
/// replaces an earlier one.
pub uninterp spec fn json_object_value(entries: Seq<(Seq<char>, Value)>) -> Value;

/// The JSON array of the given items.
pub uninterp spec fn json_array_value(items: Seq<Value>) -> Value;

/// The member of a JSON object under `key`; `None` for a missing key or a
/// value that is not an object.
pub uninterp spec fn json_member(v: Value, key: Seq<char>) -> Option<Value>;

/// The characters of a JSON string; `None` for any other kind of value.
pub uninterp spec fn json_str_of(v: Value) -> Option<Seq<char>>;

/// The compact JSON text of a value (`None` if it cannot be written).
pub uninterp spec fn json_text(v: Value) -> Option<Seq<char>>;

/// The value that a JSON text denotes (`None` if the text is not JSON).
pub uninterp spec fn json_parse_of(text: Seq<char>) -> Option<Value>;

/// The JSON number holding a signed integer.
pub uninterp spec fn json_i64_value(n: i64) -> Value;

/// The JSON number holding an unsigned integer.
pub uninterp spec fn json_u64_value(n: u64) -> Value;

/// The JSON boolean.
pub uninterp spec fn json_bool_value(b: bool) -> Value;

/// The signed integer a JSON number holds, if it holds one that fits.
pub uninterp spec fn json_i64_of(v: Value) -> Option<i64>;

/// The unsigned integer a JSON number holds, if it holds one that fits.
pub uninterp spec fn json_u64_of(v: Value) -> Option<u64>;

/// The pretty-printed JSON text of a value.
pub uninterp spec fn json_pretty_text(v: Value) -> Seq<char>;

pub open spec fn entry_views(entries: Seq<(String, Value)>) -> Seq<(Seq<char>, Value)> {
    entries.map_values(|e: (String, Value)| (e.0@, e.1))
}

/// `serde_json::Value::String`: `as_str` reads the characters back, and
/// `get` with a key finds nothing in it.
#[verifier::external_body]
pub(crate) fn json_string(s: String) -> (r: Value)
    ensures
        r == json_string_value(s@),
        json_str_of(r) == Some(s@),
        forall|k: Seq<char>| #[trigger] json_member(r, k) is None,
{
    Value::String(s)
}

/// `serde_json::Value::Object` of the entries, collected into a
/// `serde_json::Map`: `get` finds no member under a key that no entry
/// has, and the entry's value under a key that one entry alone has; which
/// value stays for a key given twice is left unsaid here. It is no string.
#[verifier::external_body]
pub(crate) fn json_object(entries: Vec<(String, Value)>) -> (r: Value)
    ensures
        r == json_object_value(entry_views(entries@)),
        json_str_of(r) is None,
        forall|k: Seq<char>|
            (forall|i: int| 0 <= i < entries@.len() ==> (#[trigger] entries@[i]).0@ != k)
                ==> #[trigger] json_member(r, k) is None,
        forall|i: int|
            0 <= i < entries@.len() && (forall|j: int|
                0 <= j < entries@.len() && j != i ==> (#[trigger] entries@[j]).0@ != entries@[i].0@)
                ==> json_member(r, (#[trigger] entries@[i]).0@) == Some(entries@[i].1),
{
    Value::Object(entries.into_iter().collect())
}

/// `serde_json::Value::Array`: neither a string nor an object.
#[verifier::external_body]
pub(crate) fn json_array(items: Vec<Value>) -> (r: Value)
    ensures
        r == json_array_value(items@),
        json_str_of(r) is None,
        forall|k: Seq<char>| #[trigger] json_member(r, k) is None,
{
    Value::Array(items)
}

/// `serde_json::Value::get` with a string key, the member copied out.
#[verifier::external_body]
pub(crate) fn json_field(v: &Value, key: &str) -> (r: Option<Value>)
    ensures
        r == json_member(*v, key@),
{
    v.get(key).cloned()
}

/// `serde_json::Value::as_str`, the characters copied out.
#[verifier::external_body]
pub(crate) fn json_as_str(v: &Value) -> (r: Option<String>)
    ensures
        crate::protocol::opt_chars(r) == json_str_of(*v),
{
    v.as_str().map(|s| s.to_owned())
}

/// `serde_json::to_string`.
#[verifier::external_body]
pub(crate) fn json_to_string(v: &Value) -> (r: Option<String>)
    ensures
        crate::protocol::opt_chars(r) == json_text(*v),
{
    serde_json::to_string(v).ok()
}

/// `serde_json::from_str` into a `Value`.
#[verifier::external_body]
pub(crate) fn json_parse(text: &str) -> (r: Option<Value>)
    ensures
        r == json_parse_of(text@),
{
    serde_json::from_str(text).ok()
}

/// A JSON string made from a string slice.
pub fn json_str(s: &str) -> (r: Value)
    ensures
        r == json_string_value(s@),
        json_str_of(r) == Some(s@),
{
    json_string(s.to_owned())
}

/// The string member `key` of `v`, if `v` is an object that has one.
pub open spec fn str_member(v: Value, key: Seq<char>) -> Option<Seq<char>> {
    match json_member(v, key) {
        Some(m) => json_str_of(m),
        None => None,
    }
}

/// `v.get(key).and_then(Value::as_str)`.
pub fn get_str(v: &Value, key: &str) -> (r: Option<String>)
    ensures
        crate::protocol::opt_chars(r) == str_member(*v, key@),
{
    match json_field(v, key) {
        Some(m) => json_as_str(&m),
        None => None,
    }
}

/// The JSON object `{"summary": summary}`.
pub open spec fn summary_value(summary: Seq<char>) -> Value {
    json_object_value(seq![("summary"@, json_string_value(summary))])
}

pub fn summary_object(summary: String) -> (r: Value)
    ensures
        r == summary_value(summary@),
        str_member(r, "summary"@) == Some(summary@),
{
    let ghost sv = summary@;
    let v = json_string(summary);
    let mut entries: Vec<(String, Value)> = Vec::new();
    entries.push(("summary".to_owned(), v));
    let r = json_object(entries);
    proof {
        assert(entry_views(entries@) =~= seq![("summary"@, json_string_value(sv))]);
        reveal_strlit("summary");
        assert(entries@[0].0@ == "summary"@);
    }
    r
}

/// `serde_json::Value::from(i64)`: a JSON number, which `as_i64` reads
/// back; neither a string nor an object.
#[verifier::external_body]
pub(crate) fn json_i64(n: i64) -> (r: Value)
    ensures
        r == json_i64_value(n),
        json_i64_of(r) == Some(n),
        json_str_of(r) is None,
        forall|k: Seq<char>| #[trigger] json_member(r, k) is None,
{
    Value::from(n)
}

/// `serde_json::Value::from(u64)`: a JSON number, which `as_u64` reads
/// back; neither a string nor an object.
#[verifier::external_body]
pub(crate) fn json_u64(n: u64) -> (r: Value)
    ensures
        r == json_u64_value(n),
        json_u64_of(r) == Some(n),
        json_str_of(r) is None,
        forall|k: Seq<char>| #[trigger] json_member(r, k) is None,
{
    Value::from(n)
}

/// `serde_json::Value::Bool`: no string, object or number.
#[verifier::external_body]
pub(crate) fn json_bool(b: bool) -> (r: Value)
    ensures
        r == json_bool_value(b),
        json_str_of(r) is None,
        forall|k: Seq<char>| #[trigger] json_member(r, k) is None,
        json_i64_of(r) is None,
        json_u64_of(r) is None,
{
    Value::Bool(b)
}

/// `serde_json::Value::as_i64`.
#[verifier::external_body]
pub(crate) fn json_as_i64(v: &Value) -> (r: Option<i64>)
    ensures
        r == json_i64_of(*v),
{
    v.as_i64()
}

/// `serde_json::Value::as_u64`.
#[verifier::external_body]
pub(crate) fn json_as_u64(v: &Value) -> (r: Option<u64>)
    ensures
        r == json_u64_of(*v),
{
    v.as_u64()
}

/// `serde_json::to_string_pretty`, falling back to the compact text.
#[verifier::external_body]
pub(crate) fn json_pretty(v: &Value) -> (r: String)
    ensures
        r@ == json_pretty_text(*v),
{
    match serde_json::to_string_pretty(v) {
        Ok(s) => s,
        Err(_) => v.to_string(),
    }
}

} // verus!
