//! Verified helpers over the opaque JSON tree: field access with the
//! error policy every manifest reader shares (a missing or ill-typed
//! field is a parse error naming the field).  The trusted accessors'
//! results are named, so each helper's contract is exact: it succeeds
//! precisely on the fields the names describe.

use vstd::prelude::*;
use vstd::string::StringExecFns;

use crate::error::Error;
use crate::jsonval;

verus! {

/// The text of string field `key` of object `v`, if the object has it
/// as a string.
pub open spec fn spec_str_field(v: serde_json::Value, key: Seq<char>) -> Option<Seq<char>> {
    match jsonval::spec_value_get(v, key) {
        Some(f) => jsonval::spec_value_str(f),
        None => None,
    }
}

/// The text of optional string field `key` of object `v`: `None` when
/// the field fails (present but not a string), `Some(None)` when it is
/// absent, `Some(Some(text))` when present.
pub open spec fn spec_opt_str_field(v: serde_json::Value, key: Seq<char>) -> Option<
    Option<Seq<char>>,
> {
    match jsonval::spec_value_get(v, key) {
        Some(f) => match jsonval::spec_value_str(f) {
            Some(s) => Some(Some(s)),
            None => None,
        },
        None => Some(None),
    }
}

/// The value of non-negative integer field `key` of object `v`.
pub open spec fn spec_u64_field(v: serde_json::Value, key: Seq<char>) -> Option<u64> {
    match jsonval::spec_value_get(v, key) {
        Some(f) => jsonval::spec_value_u64(f),
        None => None,
    }
}

/// As `spec_u64_field`, further requiring the value to fit in 32 bits.
pub open spec fn spec_u32_field(v: serde_json::Value, key: Seq<char>) -> Option<u32> {
    match spec_u64_field(v, key) {
        Some(n) => if n <= u32::MAX as u64 {
            Some(n as u32)
        } else {
            None
        },
        None => None,
    }
}

/// The bit pattern of number field `key` of object `v`.
pub open spec fn spec_f64_field(v: serde_json::Value, key: Seq<char>) -> Option<u64> {
    match jsonval::spec_value_get(v, key) {
        Some(f) => jsonval::spec_value_f64_bits(f),
        None => None,
    }
}

/// As `spec_f64_field`, with `default_bits` when the field is absent;
/// fails only when the field is present and not a number.
pub open spec fn spec_f64_field_or(v: serde_json::Value, key: Seq<char>, default_bits: u64) -> Option<
    u64,
> {
    match jsonval::spec_value_get(v, key) {
        Some(f) => jsonval::spec_value_f64_bits(f),
        None => Some(default_bits),
    }
}

/// A parse error naming the manifest field that failed.
pub(crate) fn field_error(key: &str) -> (r: Error)
    ensures
        r.is_parse(),
        r.subject() == key@,
{
    Error::ParseError(String::from_str(key))
}

/// The string field `key` of object `v`; a parse error exactly when it
/// is absent or not a string.
pub(crate) fn get_string_field(v: &serde_json::Value, key: &str) -> (r: Result<String, Error>)
    ensures
        match r {
            Ok(s) => spec_str_field(*v, key@) == Some(s@),
            Err(e) => spec_str_field(*v, key@) is None && e.is_parse() && e.subject() == key@,
        },
{
    match jsonval::value_get(v, key) {
        Some(f) => match jsonval::value_as_string(f) {
            Some(s) => Ok(s),
            None => Err(field_error(key)),
        },
        None => Err(field_error(key)),
    }
}

/// The string field `key` of object `v` when present, `None` when
/// absent; a parse error exactly when present but not a string.
pub(crate) fn get_opt_string_field(v: &serde_json::Value, key: &str) -> (r: Result<
    Option<String>,
    Error,
>)
    ensures
        match r {
            Ok(opt) => match opt {
                Some(s) => spec_opt_str_field(*v, key@) == Some(Some(s@)),
                None => spec_opt_str_field(*v, key@) == Some(None::<Seq<char>>),
            },
            Err(e) => spec_opt_str_field(*v, key@) is None && e.is_parse() && e.subject() == key@,
        },
{
    match jsonval::value_get(v, key) {
        Some(f) => match jsonval::value_as_string(f) {
            Some(s) => Ok(Some(s)),
            None => Err(field_error(key)),
        },
        None => Ok(None),
    }
}

/// The non-negative integer field `key` of object `v`; a parse error
/// exactly when absent, not a number, negative or fractional.
pub(crate) fn get_u64_field(v: &serde_json::Value, key: &str) -> (r: Result<u64, Error>)
    ensures
        match r {
            Ok(n) => spec_u64_field(*v, key@) == Some(n),
            Err(e) => spec_u64_field(*v, key@) is None && e.is_parse() && e.subject() == key@,
        },
{
    match jsonval::value_get(v, key) {
        Some(f) => match jsonval::value_as_u64(f) {
            Some(n) => Ok(n),
            None => Err(field_error(key)),
        },
        None => Err(field_error(key)),
    }
}

/// As `get_u64_field`, further requiring the value to fit in 32 bits.
pub(crate) fn get_u32_field(v: &serde_json::Value, key: &str) -> (r: Result<u32, Error>)
    ensures
        match r {
            Ok(n) => spec_u32_field(*v, key@) == Some(n),
            Err(e) => spec_u32_field(*v, key@) is None && e.is_parse() && e.subject() == key@,
        },
{
    let n = get_u64_field(v, key)?;
    if n <= u32::MAX as u64 {
        Ok(n as u32)
    } else {
        Err(field_error(key))
    }
}

/// The number field `key` of object `v` as an IEEE 754 double bit
/// pattern; a parse error exactly when absent or not a number.
pub(crate) fn get_float_bits_field(v: &serde_json::Value, key: &str) -> (r: Result<u64, Error>)
    ensures
        match r {
            Ok(b) => spec_f64_field(*v, key@) == Some(b),
            Err(e) => spec_f64_field(*v, key@) is None && e.is_parse() && e.subject() == key@,
        },
{
    match jsonval::value_get(v, key) {
        Some(f) => match jsonval::value_as_float_bits(f) {
            Some(b) => Ok(b),
            None => Err(field_error(key)),
        },
        None => Err(field_error(key)),
    }
}

/// As `get_float_bits_field`, with `default_bits` when the field is
/// absent; a parse error exactly when present and not a number.
pub(crate) fn get_float_bits_or(v: &serde_json::Value, key: &str, default_bits: u64) -> (r: Result<
    u64,
    Error,
>)
    ensures
        match r {
            Ok(b) => spec_f64_field_or(*v, key@, default_bits) == Some(b),
            Err(e) => spec_f64_field_or(*v, key@, default_bits) is None && e.is_parse()
                && e.subject() == key@,
        },
{
    match jsonval::value_get(v, key) {
        Some(f) => match jsonval::value_as_float_bits(f) {
            Some(b) => Ok(b),
            None => Err(field_error(key)),
        },
        None => Ok(default_bits),
    }
}

} // verus!
