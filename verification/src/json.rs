//! The trusted boundary around the JSON library.
//!
//! A parsed document is carried as an opaque `serde_json::Value`; what
//! the pipeline reads out of it is named by bodiless spec functions,
//! and each access goes through one small trusted wrapper whose
//! contract speaks over those names. Everything downstream of these
//! wrappers is verified.

use vstd::prelude::*;

verus! {

#[verifier::external_type_specification]
#[verifier::external_body]
pub struct ExValue(serde_json::Value);

/// The JSON document parsed from a line of text, if the line is valid
/// JSON; parsing is a function of the text alone.
pub uninterp spec fn json_of(s: Seq<char>) -> Option<serde_json::Value>;

/// Whether the document is an object carrying a field named `key`.
pub uninterp spec fn field_present(v: serde_json::Value, key: Seq<char>) -> bool;

/// The value of field `key`, if the document is an object, the field
/// is present, and its value is an integer that fits in `u64`.
pub uninterp spec fn u64_field(v: serde_json::Value, key: Seq<char>) -> Option<u64>;

/// The value of field `key`, if present and a JSON string.
pub uninterp spec fn str_field(v: serde_json::Value, key: Seq<char>) -> Option<Seq<char>>;

/// The decimal text of field `key`, if present and a JSON number.
pub uninterp spec fn num_field(v: serde_json::Value, key: Seq<char>) -> Option<Seq<char>>;

/// The value of field `key`, if present and either null (the inner
/// `None`) or an array of strings (the inner `Some`).
pub uninterp spec fn strlist_field(v: serde_json::Value, key: Seq<char>) -> Option<
    Option<Seq<Seq<char>>>,
>;

/// Relies on `serde_json::from_str::<Value>`: it returns `Ok` on the
/// JSON text it accepts (valid JSON within the parser's nesting
/// limit), and the parse depends on the text alone.
#[verifier::external_body]
pub(crate) fn parse_json(line: &str) -> (r: Option<serde_json::Value>)
    ensures
        r == json_of(line@),
{
    serde_json::from_str::<serde_json::Value>(line).ok()
}

/// Relies on `serde_json::Value::get`: `Some` exactly when the value
/// is an object that carries the key.
#[verifier::external_body]
pub(crate) fn has_field(v: &serde_json::Value, key: &str) -> (r: bool)
    ensures
        r == field_present(*v, key@),
{
    v.get(key).is_some()
}

/// Relies on `serde_json::Value::get` and `Value::as_u64`: the latter
/// is `Some` exactly on an integer representable as `u64`.
#[verifier::external_body]
pub(crate) fn get_u64(v: &serde_json::Value, key: &str) -> (r: Option<u64>)
    ensures
        r == u64_field(*v, key@),
{
    match v.get(key) {
        Some(x) => x.as_u64(),
        None => None,
    }
}

/// Relies on `serde_json::Value::get` and `Value::as_str`: the latter
/// is `Some` exactly on a JSON string.
#[verifier::external_body]
pub(crate) fn get_str(v: &serde_json::Value, key: &str) -> (r: Option<String>)
    ensures
        match r {
            Some(s) => str_field(*v, key@) == Some(s@),
            None => str_field(*v, key@) is None,
        },
{
    match v.get(key) {
        Some(x) => x.as_str().map(str::to_owned),
        None => None,
    }
}

/// Relies on `serde_json::Value::get` and the `Display` form of
/// `serde_json::Number`, which writes the number's decimal text and
/// depends on the number alone.
#[verifier::external_body]
pub(crate) fn get_num_text(v: &serde_json::Value, key: &str) -> (r: Option<String>)
    ensures
        match r {
            Some(s) => num_field(*v, key@) == Some(s@),
            None => num_field(*v, key@) is None,
        },
{
    match v.get(key) {
        Some(serde_json::Value::Number(n)) => Some(n.to_string()),
        _ => None,
    }
}

/// Relies on `serde_json::Value::get` and
/// `serde_json::from_value::<Option<Vec<String>>>`: the latter returns
/// `Ok(None)` on null, `Ok(Some(..))` on an array of strings, and
/// `Err` on anything else.
#[verifier::external_body]
pub(crate) fn get_str_list(v: &serde_json::Value, key: &str) -> (r: Option<Option<Vec<String>>>)
    ensures
        match r {
            Some(Some(xs)) => strlist_field(*v, key@) == Some(Some(xs.deep_view())),
            Some(None) => strlist_field(*v, key@) == Some(Option::<Seq<Seq<char>>>::None),
            None => strlist_field(*v, key@) is None,
        },
{
    match v.get(key) {
        Some(x) => match serde_json::from_value::<Option<Vec<String>>>(x.clone()) {
            Ok(xs) => Some(xs),
            Err(_) => None,
        },
        None => None,
    }
}

} // verus!
