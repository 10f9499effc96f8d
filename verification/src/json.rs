//! The JSON boundary: checking that request text is well-formed JSON, and
//! rendering a captured event's key/value mapping to its compact textual
//! form. Both lean on the `serde_json` crate through trusted items.

use vstd::prelude::*;

verus! {

#[verifier::external_type_specification]
#[verifier::external_body]
pub struct ExValue(serde_json::Value);

#[verifier::external_type_specification]
#[verifier::external_body]
#[verifier::reject_recursive_types(K)]
#[verifier::reject_recursive_types(V)]
pub struct ExMap<K, V>(serde_json::Map<K, V>);

/// An event object under construction.
pub type EventObject = serde_json::Map<String, serde_json::Value>;

/// Whether a text is a well-formed JSON document.
pub uninterp spec fn json_decodes(s: Seq<char>) -> bool;

/// The mapping with no entries yet.
pub open spec fn no_entries() -> Map<Seq<char>, Seq<char>> {
    Map::empty()
}

/// The entries of an event object under construction: each key mapped to
/// the string value last inserted for it.
pub uninterp spec fn map_entries(m: EventObject) -> Map<Seq<char>, Seq<char>>;

/// The compact JSON text of an object of string values: a function of its
/// entries alone, since the backing map is an ordered tree.
pub uninterp spec fn json_object_text(entries: Map<Seq<char>, Seq<char>>) -> Seq<char>;

/// Relies on serde_json::from_str::<serde_json::Value>: it succeeds exactly
/// on well-formed JSON text, and its error describes the failure.
#[verifier::external_body]
pub(crate) fn decode_json_document(s: &str) -> (r: Result<(), String>)
    ensures
        r is Ok <==> json_decodes(s@),
{
    match serde_json::from_str::<serde_json::Value>(s) {
        Ok(_) => Ok(()),
        Err(e) => Err(format!("{}", e)),
    }
}

/// Relies on serde_json::Map::new: the empty object.
#[verifier::external_body]
pub(crate) fn new_event_object() -> (r: EventObject)
    ensures
        map_entries(r) == no_entries(),
{
    serde_json::Map::new()
}

/// Relies on serde_json::Map::insert: stores the string value under the
/// key, replacing an earlier entry for the same key.
#[verifier::external_body]
pub(crate) fn insert_text(m: &mut EventObject, k: String, v: String)
    ensures
        map_entries(*final(m)) == map_entries(*old(m)).insert(k@, v@),
{
    m.insert(k, serde_json::Value::String(v));
}

/// Relies on serde_json::to_string on an object of string values: the
/// compact JSON text of its entries. Serializing such an object cannot
/// fail, so the error arm is unreachable.
#[verifier::external_body]
pub(crate) fn render_object(m: EventObject) -> (r: String)
    ensures
        r@ == json_object_text(map_entries(m)),
{
    match serde_json::to_string(&serde_json::Value::Object(m)) {
        Ok(s) => s,
        Err(_) => String::new(),
    }
}

} // verus!
