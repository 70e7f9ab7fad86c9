//! Trusted surface over `serde_json`.
//!
//! The descriptor store persists the user's runtime configuration, the
//! compiler's output record and the frozen deployment configuration as raw
//! JSON values, and the pipeline's control endpoints answer with JSON
//! bodies. The automaton inspects and assembles such values only through
//! the wrappers below. A JSON value itself stays opaque to verification;
//! what it holds is abstracted by the uninterpreted names below, so that
//! everything decided on extracted data carries an exact contract.

use vstd::prelude::*;

verus! {

#[verifier::external_type_specification]
#[verifier::external_body]
pub struct ExJsonValue(serde_json::Value);

#[verifier::external_type_specification]
#[verifier::external_body]
#[verifier::reject_recursive_types(K)]
#[verifier::reject_recursive_types(V)]
pub struct ExJsonMap<K, V>(serde_json::Map<K, V>);

/// What a JSON value holds under a key: `Some` exactly when the value is an
/// object carrying the key, `None` otherwise.
pub uninterp spec fn json_field(v: serde_json::Value, key: Seq<char>) -> Option<serde_json::Value>;

/// The characters of a JSON value: `Some` exactly when the value is a JSON
/// string.
pub uninterp spec fn json_str_of(v: serde_json::Value) -> Option<Seq<char>>;

/// The boolean of a JSON value: `Some` exactly when the value is a JSON
/// boolean.
pub uninterp spec fn json_bool_of(v: serde_json::Value) -> Option<bool>;

/// Whether a JSON value is an object.
pub uninterp spec fn json_is_obj(v: serde_json::Value) -> bool;

/// A JSON object map, keyed by field name.
pub(crate) type JsonMap = serde_json::Map<String, serde_json::Value>;

/// What a JSON object map holds: its keys and their values.
pub uninterp spec fn json_map_contents(m: JsonMap) -> Map<Seq<char>, serde_json::Value>;

/// Relies on `serde_json::Value::get`: looks a key up in a JSON object,
/// `None` if the value is not an object or the key is absent.
#[verifier::external_body]
pub(crate) fn json_get<'a>(v: &'a serde_json::Value, key: &str) -> (r: Option<
    &'a serde_json::Value,
>)
    ensures
        (match r {
            Some(f) => json_field(*v, key@) == Some(*f),
            None => json_field(*v, key@) is None,
        }),
{
    v.get(key)
}

/// Relies on `serde_json::Value::as_str`: the borrowed string if the value
/// is a JSON string, `None` otherwise.
#[verifier::external_body]
pub(crate) fn json_as_str<'a>(v: &'a serde_json::Value) -> (r: Option<&'a str>)
    ensures
        (match r {
            Some(s) => json_str_of(*v) == Some(s@),
            None => json_str_of(*v) is None,
        }),
{
    v.as_str()
}

/// Relies on `serde_json::Value::as_bool`: the boolean if the value is a
/// JSON boolean, `None` otherwise.
#[verifier::external_body]
pub(crate) fn json_as_bool(v: &serde_json::Value) -> (r: Option<bool>)
    ensures
        r == json_bool_of(*v),
{
    v.as_bool()
}

/// Relies on `serde_json::Value::is_object`: whether the value is a JSON
/// object.
#[verifier::external_body]
pub(crate) fn json_is_object(v: &serde_json::Value) -> (r: bool)
    ensures
        r == json_is_obj(*v),
{
    v.is_object()
}

/// Relies on `<serde_json::Value as Clone>::clone`: the derived clone
/// reproduces the value.
pub assume_specification[ <serde_json::Value as Clone>::clone ](v: &serde_json::Value) -> (r:
    serde_json::Value)
    ensures
        r == *v,
;

/// Relies on `serde_json::Map::new`: makes an empty JSON object map.
#[verifier::external_body]
pub(crate) fn json_map_new() -> (r: JsonMap)
    ensures
        json_map_contents(r) =~= Map::empty(),
{
    serde_json::Map::new()
}

/// Relies on `serde_json::Map::insert`: inserts a key/value pair into a JSON
/// object map, replacing any previous value under the key.
#[verifier::external_body]
pub(crate) fn json_map_insert(m: &mut JsonMap, key: String, value: serde_json::Value)
    ensures
        json_map_contents(*final(m)) == json_map_contents(*old(m)).insert(key@, value),
{
    m.insert(key, value);
}

/// Relies on `From<serde_json::Map<String, Value>> for serde_json::Value`:
/// wraps a map as a JSON object value, which holds under each key exactly
/// what the map holds there.
#[verifier::external_body]
pub(crate) fn json_from_map(m: JsonMap) -> (r: serde_json::Value)
    ensures
        json_is_obj(r),
        forall|key: Seq<char>| #[trigger]
            json_field(r, key) == (if json_map_contents(m).dom().contains(key) {
                Some(json_map_contents(m)[key])
            } else {
                None::<serde_json::Value>
            }),
{
    serde_json::Value::from(m)
}

/// Relies on `From<String> for serde_json::Value`: wraps a string as a JSON
/// string value holding exactly those characters.
#[verifier::external_body]
pub(crate) fn json_from_string(s: String) -> (r: serde_json::Value)
    ensures
        json_str_of(r) == Some(s@),
{
    serde_json::Value::from(s)
}

} // verus!
