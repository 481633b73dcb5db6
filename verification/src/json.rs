//! JSON values and objects of serde_json, as far as the library builds and
//! merges them: values are carried unread; an object is known by its entries.

use vstd::prelude::*;

verus! {

/// `serde_json::Value`, held and moved; nothing inside it is read.
#[verifier::external_type_specification]
#[verifier::external_body]
pub struct ExJsonValue(serde_json::Value);

/// `serde_json::Map`, a JSON object.
#[verifier::external_type_specification]
#[verifier::external_body]
#[verifier::reject_recursive_types(K)]
#[verifier::reject_recursive_types(V)]
pub struct ExJsonMap<K, V>(serde_json::Map<K, V>);

/// A JSON object with string keys.
pub type JsonObject = serde_json::Map<String, serde_json::Value>;

/// The JSON string with the given text.
pub uninterp spec fn json_text(s: Seq<char>) -> serde_json::Value;

/// The entries of a JSON object, by key.
pub uninterp spec fn json_entries(m: JsonObject) -> Map<
    Seq<char>,
    serde_json::Value,
>;

/// `serde_json::Value::String`: the JSON string holding `s`.
#[verifier::external_body]
pub(crate) fn json_string(s: String) -> (v: serde_json::Value)
    ensures
        v == json_text(s@),
{
    serde_json::Value::String(s)
}

/// `serde_json::Map::new`, documented as making a new empty map.
#[verifier::external_body]
pub(crate) fn json_object_new() -> (m: JsonObject)
    ensures
        json_entries(m).dom() == Set::<Seq<char>>::empty(),
{
    serde_json::Map::new()
}

/// `serde_json::Map::insert`: sets key `k` to `v`, and gives back the value the
/// key had before, if any.
#[verifier::external_body]
pub(crate) fn json_object_insert(
    m: &mut JsonObject,
    k: String,
    v: serde_json::Value,
) -> (prev: Option<serde_json::Value>)
    ensures
        json_entries(*final(m)) == json_entries(*old(m)).insert(k@, v),
        prev == (if json_entries(*old(m)).dom().contains(k@) {
            Some(json_entries(*old(m))[k@])
        } else {
            None
        }),
{
    m.insert(k, v)
}

/// The entries of a JSON object, through its `IntoIterator` impl: each entry
/// exactly once. Their order (sorted by key, or the order of insertion when
/// serde_json's `preserve_order` feature is on) is not stated.
#[verifier::external_body]
pub(crate) fn json_object_into_entries(m: JsonObject) -> (es: Vec<
    (String, serde_json::Value),
>)
    ensures
        forall|i: int, j: int|
            0 <= i < j < es@.len() ==> #[trigger] es@[i].0@ != #[trigger] es@[j].0@,
        forall|i: int|
            0 <= i < es@.len() ==> #[trigger] json_entries(m).dom().contains(es@[i].0@)
                && json_entries(m)[es@[i].0@] == es@[i].1,
        forall|k: Seq<char>|
            #[trigger] json_entries(m).dom().contains(k) ==> exists|i: int|
                0 <= i < es@.len() && #[trigger] es@[i].0@ == k,
{
    m.into_iter().collect()
}

} // verus!
