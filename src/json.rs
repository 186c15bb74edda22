use vstd::prelude::*;
use crate::text::opt_view;

verus! {

/// A JSON document of serde_json, carried through the library as the options
/// of an action. The library never looks inside it but through the functions
/// below.
#[verifier::external_type_specification]
#[verifier::external_body]
pub struct ExJsonValue(serde_json::Value);

/// Relies on `Clone` for serde_json's `Value`: a deep copy, equal to the
/// value it was made from.
pub assume_specification[ <serde_json::Value as Clone>::clone ](v: &serde_json::Value) -> (r:
    serde_json::Value)
    ensures
        r == *v,
;

/// The text of the field `key` of the JSON object `v`; `None` where `v` is no
/// object, has no such field, or the field is not a string.
pub uninterp spec fn json_text_field(v: serde_json::Value, key: Seq<char>) -> Option<Seq<char>>;

/// Whether the JSON value `v` is an object.
pub uninterp spec fn json_is_object(v: serde_json::Value) -> bool;

/// The object `v` with its field `key` set to the string `text`, every other
/// field kept.
pub uninterp spec fn json_with_text(
    v: serde_json::Value,
    key: Seq<char>,
    text: Seq<char>,
) -> serde_json::Value;

/// Relies on serde_json's `Value::get` and `Value::as_str`: the text of the
/// field `key` of an object, `None` where there is no such field or it is not
/// a string.
#[verifier::external_body]
pub(crate) fn string_field(v: &serde_json::Value, key: &str) -> (r: Option<String>)
    ensures
        opt_view(r) == json_text_field(*v, key@),
{
    v.get(key).and_then(|f| f.as_str()).map(|s| s.to_string())
}

/// Relies on serde_json's `Value::as_object_mut` and `Map::insert`: a copy of
/// the object `v` whose field `key` holds the string `text`, every other field
/// kept. `None` where `v` is not an object.
#[verifier::external_body]
pub(crate) fn with_string_field(v: &serde_json::Value, key: &str, text: &str) -> (r: Option<
    serde_json::Value,
>)
    ensures
        r is Some <==> json_is_object(*v),
        r matches Some(o) ==> o == json_with_text(*v, key@, text@) && json_is_object(o)
            && json_text_field(o, key@) == Some(text@),
{
    let mut out = v.clone();
    let map = out.as_object_mut()?;
    map.insert(key.to_string(), serde_json::Value::String(text.to_string()));
    Some(out)
}

} // verus!
