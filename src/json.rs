//! The serde_json items the store relies on.
use vstd::prelude::*;

verus! {

#[verifier::external_type_specification]
#[verifier::external_body]
pub struct ExValue(serde_json::Value);

#[verifier::external_type_specification]
#[verifier::external_body]
#[verifier::reject_recursive_types(K)]
#[verifier::reject_recursive_types(V)]
pub struct ExJsonMap<K, V>(serde_json::Map<K, V>);

/// A JSON object: the in-memory form of the settings document.
pub type Object = serde_json::Map<String, serde_json::Value>;

/// The value that a JSON text parses to; `None` where the bytes are not JSON.
pub uninterp spec fn json_of(bytes: Seq<u8>) -> Option<serde_json::Value>;

/// The object a JSON value is; `None` for a value of another kind.
pub uninterp spec fn object_of(v: serde_json::Value) -> Option<Object>;

/// The entries of an object, key to value.
pub uninterp spec fn entries(m: Object) -> Map<Seq<char>, serde_json::Value>;

/// The message of the parser's error on bytes that are not JSON.
pub uninterp spec fn parse_error_of(bytes: Seq<u8>) -> Seq<char>;

/// The indented JSON text of an object with the given entries.
pub uninterp spec fn pretty_of(m: Map<Seq<char>, serde_json::Value>) -> Seq<u8>;

/// Relies on `serde_json::from_slice`: parses the bytes as one JSON value,
/// or fails with the parser's message.
#[verifier::external_body]
pub(crate) fn parse_value(bytes: &[u8]) -> (r: Result<serde_json::Value, String>)
    ensures
        r is Ok <==> json_of(bytes@) is Some,
        r is Ok ==> json_of(bytes@) == Some(r->Ok_0),
        r is Err ==> r->Err_0@ == parse_error_of(bytes@),
{
    serde_json::from_slice(bytes).map_err(|e| e.to_string())
}

/// Relies on the variants of `serde_json::Value`: the map of an `Object`.
#[verifier::external_body]
pub(crate) fn into_object(v: serde_json::Value) -> (r: Option<Object>)
    ensures
        r == object_of(v),
{
    match v {
        serde_json::Value::Object(m) => Some(m),
        serde_json::Value::Null => None,
        serde_json::Value::Bool(_) => None,
        serde_json::Value::Number(_) => None,
        serde_json::Value::String(_) => None,
        serde_json::Value::Array(_) => None,
    }
}

/// Relies on `serde_json::to_vec_pretty`: the indented text of the object.
/// Without the `preserve_order` feature the map is a `BTreeMap`, so the text
/// depends on the entries alone. The `Serialize` impl of `Value` raises no
/// error, its map keys are strings and a `Vec` takes every write, so the call
/// succeeds; an empty map is written as `{}`.
#[verifier::external_body]
pub(crate) fn to_pretty_bytes(m: Object) -> (r: Result<Vec<u8>, String>)
    ensures
        r is Ok,
        r->Ok_0@ == pretty_of(entries(m)),
        entries(m).is_empty() ==> r->Ok_0@ == seq![123u8, 125u8],
{
    serde_json::to_vec_pretty(&serde_json::Value::Object(m)).map_err(|e| e.to_string())
}

/// Relies on `serde_json::Map::contains_key`.
#[verifier::external_body]
pub(crate) fn object_contains(m: &Object, key: &str) -> (r: bool)
    ensures
        r == entries(*m).contains_key(key@),
{
    m.contains_key(key)
}

/// Relies on `serde_json::Map::insert`: the key maps to the value afterwards,
/// the other entries stay.
#[verifier::external_body]
pub(crate) fn object_insert(m: &mut Object, key: String, value: serde_json::Value)
    ensures
        entries(*final(m)) == entries(*old(m)).insert(key@, value),
{
    m.insert(key, value);
}

/// Relies on `serde_json::Map::remove`: takes the key's value out, if it is there.
#[verifier::external_body]
pub(crate) fn object_remove(m: &mut Object, key: &str) -> (r: Option<serde_json::Value>)
    ensures
        entries(*final(m)) == entries(*old(m)).remove(key@),
        r == (if entries(*old(m)).contains_key(key@) {
            Some(entries(*old(m))[key@])
        } else {
            None
        }),
{
    m.remove(key)
}

/// Relies on `serde_json::Map::keys`: every key of the map, each once.
#[verifier::external_body]
pub(crate) fn object_keys(m: &Object) -> (r: Vec<String>)
    ensures
        forall|i: int| 0 <= i < r@.len() ==> entries(*m).contains_key(#[trigger] r@[i]@),
        forall|k: Seq<char>|
            entries(*m).contains_key(k) ==> exists|i: int| 0 <= i < r@.len() && r@[i]@ == k,
        forall|i: int, j: int|
            0 <= i < r@.len() && 0 <= j < r@.len() && i != j ==> r@[i]@ != r@[j]@,
{
    m.keys().cloned().collect()
}

} // verus!
