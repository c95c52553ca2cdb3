//! Structured-value access through serde_json.
//!
//! The refiner's responses arrive as structured text; serde_json parses them
//! and hands the core opaque values.  The core reads those values only
//! through the narrow field accessors below.  What each accessor returns is
//! a function of the value and the key alone, so each result carries a name;
//! all validation is verified on the plain values the accessors return.

use vstd::prelude::*;

verus! {

#[verifier::external_type_specification]
#[verifier::external_body]
pub struct ExValue(serde_json::Value);

/// Whether serde_json parses the text as a structured value.
pub uninterp spec fn json_parses(s: Seq<char>) -> bool;

/// The text of the string member under `key`, if the value is an object
/// whose member under `key` is a string.
pub uninterp spec fn json_member_str(v: serde_json::Value, key: Seq<char>) -> Option<Seq<char>>;

/// The texts of the array-of-strings member under `key`, if the value is an
/// object whose member under `key` is an array holding only strings.
pub uninterp spec fn json_member_str_list(v: serde_json::Value, key: Seq<char>) -> Option<
    Seq<Seq<char>>,
>;

/// The entries of the object member under `key`, if the value is an object
/// whose member under `key` is an object holding only string values.
pub uninterp spec fn json_member_str_entries(v: serde_json::Value, key: Seq<char>) -> Option<
    Seq<(Seq<char>, Seq<char>)>,
>;

/// The entries of the object member under `key` with each value as its
/// compact structured text, if the value is an object whose member under
/// `key` is an object.
pub uninterp spec fn json_member_text_entries(v: serde_json::Value, key: Seq<char>) -> Option<
    Seq<(Seq<char>, Seq<char>)>,
>;

/// Relies on serde_json::from_str: whether a text parses is a function of
/// the text alone.
#[verifier::external_body]
pub fn json_parse(s: &str) -> (r: Option<serde_json::Value>)
    ensures
        r is Some <==> json_parses(s@),
{
    serde_json::from_str::<serde_json::Value>(s).ok()
}

/// Relies on serde_json's Value::get and Value::as_str: the string member
/// under `key` is a function of the value and the key alone.
#[verifier::external_body]
pub fn json_str_field(v: &serde_json::Value, key: &str) -> (r: Option<String>)
    ensures
        match r {
            Some(s) => json_member_str(*v, key@) == Some(s@),
            None => json_member_str(*v, key@) is None,
        },
{
    v.get(key).and_then(|m| m.as_str()).map(|s| s.to_string())
}

/// Relies on serde_json's Value::get, Value::as_array and Value::as_str:
/// the string elements of the array member under `key` are a function of
/// the value and the key alone.
#[verifier::external_body]
pub fn json_str_list_field(v: &serde_json::Value, key: &str) -> (r: Option<Vec<String>>)
    ensures
        match r {
            Some(xs) => json_member_str_list(*v, key@) == Some(
                xs@.map_values(|x: String| x@),
            ),
            None => json_member_str_list(*v, key@) is None,
        },
{
    v.get(key)?.as_array()?.iter().map(|x| x.as_str().map(|s| s.to_string())).collect()
}

/// Relies on serde_json's Value::get, Value::as_object and Value::as_str:
/// the string-valued entries of the object member under `key`, in stored
/// (sorted-key) order, are a function of the value and the key alone.
#[verifier::external_body]
pub fn json_str_entries_field(v: &serde_json::Value, key: &str) -> (r: Option<
    Vec<(String, String)>,
>)
    ensures
        match r {
            Some(es) => json_member_str_entries(*v, key@) == Some(
                es@.map_values(|e: (String, String)| (e.0@, e.1@)),
            ),
            None => json_member_str_entries(*v, key@) is None,
        },
{
    v.get(key)?.as_object()?.iter().map(
        |(k, w)| w.as_str().map(|s| (k.clone(), s.to_string())),
    ).collect()
}

/// Relies on serde_json's Value::get, Value::as_object and to_string: the
/// entries of the object member under `key`, each value rendered as its
/// compact text, in stored (sorted-key) order, are a function of the value
/// and the key alone.
#[verifier::external_body]
pub fn json_text_entries_field(v: &serde_json::Value, key: &str) -> (r: Option<
    Vec<(String, String)>,
>)
    ensures
        match r {
            Some(es) => json_member_text_entries(*v, key@) == Some(
                es@.map_values(|e: (String, String)| (e.0@, e.1@)),
            ),
            None => json_member_text_entries(*v, key@) is None,
        },
{
    let entries = v.get(key)?.as_object()?;
    Some(
        entries.iter().map(
            |(k, w)| (k.clone(), serde_json::to_string(w).unwrap_or_default()),
        ).collect(),
    )
}

} // verus!
