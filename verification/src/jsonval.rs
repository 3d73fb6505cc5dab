//! Trusted boundary to `serde_json`.  JSON text is decoded by the outside
//! crate into an opaque `serde_json::Value` tree; the wrappers below hand
//! the tree's leaves to the verified schema readers as plain values.
//! Every accessor is deterministic — its result is a function of its
//! arguments alone — so each result is given a name, and the readers'
//! contracts are exact over those names.

use vstd::prelude::*;

verus! {

#[verifier::external_type_specification]
#[verifier::external_body]
pub struct ExValue(serde_json::Value);

/// The `Value` tree that text `s` decodes to, if `s` is well-formed
/// JSON; what `serde_json::from_str` returns.
pub uninterp spec fn spec_parsed(s: Seq<char>) -> Option<serde_json::Value>;

/// The value under `key` if `v` is an object that has it; what
/// `serde_json::Value::get` returns.
pub uninterp spec fn spec_value_get(v: serde_json::Value, key: Seq<char>) -> Option<
    serde_json::Value,
>;

/// The text of `v` if it is a JSON string; what
/// `serde_json::Value::as_str` returns.
pub uninterp spec fn spec_value_str(v: serde_json::Value) -> Option<Seq<char>>;

/// The elements of `v` if it is a JSON array; what
/// `serde_json::Value::as_array` returns.
pub uninterp spec fn spec_value_array(v: serde_json::Value) -> Option<Seq<serde_json::Value>>;

/// The value of `v` if it is a non-negative integer JSON number; what
/// `serde_json::Value::as_u64` returns.
pub uninterp spec fn spec_value_u64(v: serde_json::Value) -> Option<u64>;

/// The IEEE 754 double bit pattern of `v` if it is a JSON number; what
/// `serde_json::Value::as_f64` returns, as bits.
pub uninterp spec fn spec_value_f64_bits(v: serde_json::Value) -> Option<u64>;

/// Relies on `serde_json::from_str`: decodes JSON text into a `Value`
/// tree, failing exactly on malformed JSON.  A failure is handed back as
/// the decoder's display text.
#[verifier::external_body]
pub(crate) fn parse_value(s: &str) -> (r: Result<serde_json::Value, String>)
    ensures
        match r {
            Ok(v) => spec_parsed(s@) == Some(v),
            Err(_) => spec_parsed(s@) is None,
        },
{
    serde_json::from_str(s).map_err(|e| e.to_string())
}

/// Relies on `serde_json::Value::get`: looks a key up in a JSON object,
/// returning `None` when the key is absent or the value is not an object.
#[verifier::external_body]
pub(crate) fn value_get<'a>(v: &'a serde_json::Value, key: &str) -> (r: Option<
    &'a serde_json::Value,
>)
    ensures
        match r {
            Some(f) => spec_value_get(*v, key@) == Some(*f),
            None => spec_value_get(*v, key@) is None,
        },
{
    v.get(key)
}

/// Relies on `serde_json::Value::as_str`: the text of a JSON string,
/// `None` for any other kind of value.
#[verifier::external_body]
pub(crate) fn value_as_string(v: &serde_json::Value) -> (r: Option<String>)
    ensures
        match r {
            Some(s) => spec_value_str(*v) == Some(s@),
            None => spec_value_str(*v) is None,
        },
{
    v.as_str().map(|s| s.to_string())
}

/// Relies on `serde_json::Value::as_array`: the elements of a JSON array,
/// `None` for any other kind of value.
#[verifier::external_body]
pub(crate) fn value_as_array<'a>(v: &'a serde_json::Value) -> (r: Option<
    &'a Vec<serde_json::Value>,
>)
    ensures
        match r {
            Some(a) => spec_value_array(*v) == Some(a@),
            None => spec_value_array(*v) is None,
        },
{
    v.as_array()
}

/// Relies on `serde_json::Value::as_u64`: the value of a JSON number that
/// is a non-negative integer, `None` otherwise.
#[verifier::external_body]
pub(crate) fn value_as_u64(v: &serde_json::Value) -> (r: Option<u64>)
    ensures
        r == spec_value_u64(*v),
{
    v.as_u64()
}

/// Relies on `serde_json::Value::as_f64`: the value of a JSON number,
/// returned as its IEEE 754 bit pattern so that this crate carries it as
/// a plain integer; `None` for any other kind of value.
#[verifier::external_body]
pub(crate) fn value_as_float_bits(v: &serde_json::Value) -> (r: Option<u64>)
    ensures
        r == spec_value_f64_bits(*v),
{
    v.as_f64().map(|x| x.to_bits())
}

} // verus!
