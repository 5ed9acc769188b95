//! JSON values as serde_json reads them, and the few questions the library
//! asks of them. Each name below stands for what one serde_json function gives.
use vstd::prelude::*;

verus! {

#[verifier::external_type_specification]
#[verifier::external_body]
pub struct ExJsonValue(serde_json::Value);

/// What `serde_json::from_str::<serde_json::Value>` gives for a text: the
/// value read, or the display text of the error when the text is not one JSON
/// value.
pub uninterp spec fn json_value_of(text: Seq<char>) -> Result<serde_json::Value, Seq<char>>;

/// The error, if any, that reading `text` as one JSON value reports.
pub open spec fn json_value_error(text: Seq<char>) -> Option<Seq<char>> {
    match json_value_of(text) {
        Ok(_) => None,
        Err(m) => Some(m),
    }
}

/// Reads a text with `serde_json::from_str` as a `serde_json::Value`. The contract names what comes back: the value read,
/// or the error's display text; which value a text holds is serde_json's
/// grammar and is not spelled out.
#[verifier::external_body]
pub(crate) fn read_json_value(text: &str) -> (r: Result<serde_json::Value, String>)
    ensures
        match r {
            Ok(v) => json_value_of(text@) == Ok::<serde_json::Value, Seq<char>>(v),
            Err(m) => json_value_of(text@) == Err::<serde_json::Value, Seq<char>>(m@),
        },
{
    match serde_json::from_str::<serde_json::Value>(text) {
        Ok(value) => Ok(value),
        Err(error) => Err(error.to_string()),
    }
}

/// The text of a string, where there is one.
pub open spec fn opt_text(s: Option<String>) -> Option<Seq<char>> {
    match s {
        Some(t) => Some(t@),
        None => None,
    }
}

/// What `serde_json::Value::get` gives for `key`: the field's value where `v`
/// is an object with that field, else none.
pub uninterp spec fn json_field(v: serde_json::Value, key: Seq<char>) -> Option<serde_json::Value>;

/// `serde_json::Value::get` with a string key, the field copied out.
#[verifier::external_body]
pub(crate) fn json_get(v: &serde_json::Value, key: &str) -> (r: Option<serde_json::Value>)
    ensures
        r == json_field(*v, key@),
{
    v.get(key).cloned()
}

/// What `serde_json::Value::as_str` gives: the string that `v` holds, none
/// where `v` is not a string.
pub uninterp spec fn json_str(v: serde_json::Value) -> Option<Seq<char>>;

/// `serde_json::Value::as_str`, the string copied out.
#[verifier::external_body]
pub(crate) fn json_as_str(v: &serde_json::Value) -> (r: Option<String>)
    ensures
        opt_text(r) == json_str(*v),
{
    v.as_str().map(|t| t.to_string())
}

/// What `serde_json::Value::as_bool` gives: the boolean that `v` holds, none
/// where `v` is not a boolean.
pub uninterp spec fn json_bool(v: serde_json::Value) -> Option<bool>;

/// `serde_json::Value::as_bool`.
#[verifier::external_body]
pub(crate) fn json_as_bool(v: &serde_json::Value) -> (r: Option<bool>)
    ensures
        r == json_bool(*v),
{
    v.as_bool()
}

/// What `serde_json::Value::as_array` gives: the items of an array in order,
/// none where `v` is not an array.
pub uninterp spec fn json_array(v: serde_json::Value) -> Option<Seq<serde_json::Value>>;

/// `serde_json::Value::as_array`, the items copied out.
#[verifier::external_body]
pub(crate) fn json_as_array(v: &serde_json::Value) -> (r: Option<Vec<serde_json::Value>>)
    ensures
        r is Some <==> json_array(*v) is Some,
        r matches Some(items) ==> json_array(*v) == Some(items@),
{
    v.as_array().cloned()
}

/// The JSON text that `serde_json::Value`'s `Display` writes for `v`.
pub uninterp spec fn json_text(v: serde_json::Value) -> Seq<char>;

/// `serde_json::Value::to_string`.
#[verifier::external_body]
pub(crate) fn json_to_text(v: &serde_json::Value) -> (r: String)
    ensures
        r@ == json_text(*v),
{
    v.to_string()
}

/// What `serde_json::Value::get` gives for an index: the item at `index`
/// where `v` is an array that long, else none.
pub uninterp spec fn json_item(v: serde_json::Value, index: int) -> Option<serde_json::Value>;

/// `serde_json::Value::get` with an array index, the item copied out.
#[verifier::external_body]
pub(crate) fn json_get_item(v: &serde_json::Value, index: usize) -> (r: Option<serde_json::Value>)
    ensures
        r == json_item(*v, index as int),
{
    v.get(index).cloned()
}

/// The string held by `v`'s field `key`, where `v` has such a field and it is
/// a string.
pub open spec fn field_str(v: serde_json::Value, key: Seq<char>) -> Option<Seq<char>> {
    match json_field(v, key) {
        Some(f) => json_str(f),
        None => None,
    }
}

/// Reads the string field `key` of `v`.
pub fn read_str_field(v: &serde_json::Value, key: &str) -> (r: Option<String>)
    ensures
        opt_text(r) == field_str(*v, key@),
{
    match json_get(v, key) {
        Some(f) => json_as_str(&f),
        None => None,
    }
}

} // verus!
