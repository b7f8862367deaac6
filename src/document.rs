//! One transaction on the settings document.
//!
//! The caller reads the document's content and hands it over; the
//! transaction parses it, requires an object at its root, applies one
//! operation to the entries, and gives back the operation's reply together
//! with the content to persist, if the operation changed the document and
//! succeeded. Nothing is cached between transactions.
use crate::json::{
    entries, into_object, json_of, object_contains, object_insert, object_keys, object_of,
    object_remove, parse_error_of, parse_value, pretty_of, to_pretty_bytes, Object,
};
use serde_json::Value;
use vstd::prelude::*;

verus! {

/// Why an operation on the settings failed.
#[derive(Debug, PartialEq, Eq)]
pub enum Error {
    /// The backing file could not be created, opened, read or written.
    IoError(String),
    /// The content is not JSON, or its root is not an object.
    Corrupted(String),
    /// A value could not be turned into JSON, or JSON into the requested type.
    Type(String),
    /// No entry has the requested key.
    NotFound,
}

/// What a transaction gives back: the operation's reply, and the content to
/// write over the document, where the operation changed it and succeeded.
#[derive(Debug)]
pub struct Outcome<T> {
    pub result: Result<T, Error>,
    pub write_back: Option<Vec<u8>>,
}

/// The entries a document holds: `None` where its content is not JSON, or
/// its root is not an object.
pub open spec fn document(content: Seq<u8>) -> Option<Map<Seq<char>, Value>> {
    match json_of(content) {
        Some(v) => match object_of(v) {
            Some(m) => Some(entries(m)),
            None => None,
        },
        None => None,
    }
}

/// The message given for a document whose root is not an object.
pub open spec fn not_object_message() -> Seq<char> {
    "Root settings element is not an Object"@
}

/// Why the content is not a settings document: the parser's message where
/// it is not JSON, `not_object_message()` where its root is not an object;
/// `None` where it is a settings document.
pub open spec fn corruption(content: Seq<u8>) -> Option<Seq<char>> {
    match json_of(content) {
        Some(v) => match object_of(v) {
            Some(_) => None,
            None => Some(not_object_message()),
        },
        None => Some(parse_error_of(content)),
    }
}

/// `e` is the error for a corrupted document with the message `msg`.
pub open spec fn is_corrupted(e: Error, msg: Seq<char>) -> bool {
    e is Corrupted && e->Corrupted_0@ == msg
}

/// `r` fails as the corrupted content does: with its message, and with
/// nothing written.
pub open spec fn corrupted<T>(r: Outcome<T>, content: Seq<u8>) -> bool {
    &&& r.result is Err
    &&& is_corrupted(r.result->Err_0, corruption(content)->0)
    &&& r.write_back is None
}

/// `r` replies `x` and writes nothing.
pub open spec fn reads<T>(r: Outcome<T>, x: Result<T, Error>) -> bool {
    r.result == x && r.write_back is None
}

/// `r` replies `x` and writes the text of the entries `m`, which is `{}`
/// where there are none.
pub open spec fn saves<T>(r: Outcome<T>, x: T, m: Map<Seq<char>, Value>) -> bool {
    &&& r.result == Ok::<T, Error>(x)
    &&& r.write_back is Some
    &&& r.write_back->0@ == pretty_of(m)
    &&& m == Map::<Seq<char>, Value>::empty() ==> r.write_back->0@ == seq![123u8, 125u8]
}

/// The reply to a lookup of `key` in the entries `m`.
pub open spec fn get_reply(m: Map<Seq<char>, Value>, key: Seq<char>) -> Result<Value, Error> {
    if m.contains_key(key) {
        Ok(m[key])
    } else {
        Err(Error::NotFound)
    }
}

/// The entries after `key` is set to `v`.
pub open spec fn set_entries(m: Map<Seq<char>, Value>, key: Seq<char>, v: Value) -> Map<
    Seq<char>,
    Value,
> {
    m.insert(key, v)
}

/// The entries after `key` is cleared.
pub open spec fn clear_entries(m: Map<Seq<char>, Value>, key: Seq<char>) -> Map<Seq<char>, Value> {
    m.remove(key)
}

/// `list` holds each entry of `m` once, and nothing else.
pub open spec fn lists(list: Seq<(String, Value)>, m: Map<Seq<char>, Value>) -> bool {
    &&& forall|i: int|
        0 <= i < list.len() ==> #[trigger] m.contains_key(list[i].0@) && m[list[i].0@]
            == list[i].1
    &&& forall|k: Seq<char>|
        m.contains_key(k) ==> exists|i: int| 0 <= i < list.len() && #[trigger] list[i].0@ == k
    &&& forall|i: int, j: int|
        0 <= i < list.len() && 0 <= j < list.len() && i != j ==> list[i].0@ != list[j].0@
}

/// The content of a newly created document: an empty object, `{}`.
pub fn initial_content() -> (r: Vec<u8>)
    ensures
        r@ == seq![123u8, 125u8],
{
    let mut r: Vec<u8> = Vec::new();
    r.push(123u8);
    r.push(125u8);
    r
}

/// Parses the content as the settings object.
pub fn load(content: &[u8]) -> (r: Result<Object, Error>)
    ensures
        document(content@) is Some <==> corruption(content@) is None,
        match document(content@) {
            Some(m) => r is Ok && entries(r->Ok_0) == m,
            None => r is Err && is_corrupted(r->Err_0, corruption(content@)->0),
        },
{
    match parse_value(content) {
        Err(msg) => Err(Error::Corrupted(msg)),
        Ok(v) => match into_object(v) {
            Some(m) => Ok(m),
            None => {
                proof {
                    reveal_strlit("Root settings element is not an Object");
                }
                Err(Error::Corrupted("Root settings element is not an Object".to_owned()))
            },
        },
    }
}

/// Takes the value of `key` out of the entries, or fails with `NotFound`.
pub fn get_entry(map: &mut Object, key: &str) -> (r: Result<Value, Error>)
    ensures
        r == get_reply(entries(*old(map)), key@),
        entries(*final(map)) == entries(*old(map)).remove(key@),
{
    match object_remove(map, key) {
        Some(v) => Ok(v),
        None => Err(Error::NotFound),
    }
}

/// Whether the entries hold `key`.
pub fn has_entry(map: &Object, key: &str) -> (r: bool)
    ensures
        r == entries(*map).contains_key(key@),
{
    object_contains(map, key)
}

/// Sets `key` to the encoded value; where the value could not be encoded,
/// fails with a type error and leaves the entries as they were.
pub fn set_entry(map: &mut Object, key: &str, value: Result<Value, String>) -> (r: Result<
    (),
    Error,
>)
    ensures
        match value {
            Ok(v) => r is Ok && entries(*final(map)) == set_entries(entries(*old(map)), key@, v),
            Err(msg) => r == Err::<(), Error>(Error::Type(msg)) && *final(map) == *old(map),
        },
{
    match value {
        Ok(v) => {
            object_insert(map, key.to_owned(), v);
            Ok(())
        },
        Err(msg) => Err(Error::Type(msg)),
    }
}

/// Removes `key` from the entries, if it is there.
pub fn clear_entry(map: &mut Object, key: &str) -> (r: Result<(), Error>)
    ensures
        r is Ok,
        entries(*final(map)) == clear_entries(entries(*old(map)), key@),
{
    object_remove(map, key);
    Ok(())
}

/// Takes every entry out of the map, as a list of key and value.
pub fn list_entries(map: &mut Object) -> (r: Vec<(String, Value)>)
    ensures
        lists(r@, entries(*old(map))),
{
    let ghost orig = entries(*map);
    let keys = object_keys(map);
    let mut out: Vec<(String, Value)> = Vec::new();
    let mut i: usize = 0;
    while i < keys.len()
        invariant
            i <= keys@.len(),
            out@.len() == i,
            forall|j: int|
                0 <= j < keys@.len() ==> orig.contains_key(#[trigger] keys@[j]@),
            forall|j: int, l: int|
                0 <= j < keys@.len() && 0 <= l < keys@.len() && j != l ==> keys@[j]@
                    != keys@[l]@,
            forall|j: int|
                i <= j < keys@.len() ==> entries(*map).contains_key(#[trigger] keys@[j]@)
                    && entries(*map)[keys@[j]@] == orig[keys@[j]@],
            forall|j: int|
                0 <= j < i ==> (#[trigger] out@[j]).0@ == keys@[j]@ && out@[j].1
                    == orig[keys@[j]@],
        decreases keys@.len() - i,
    {
        let key = keys[i].clone();
        match object_remove(map, &key) {
            Some(v) => out.push((key, v)),
            None => {
                assert(false);
            },
        }
        i = i + 1;
    }
    assert forall|k: Seq<char>| orig.contains_key(k) implies exists|j: int|
        0 <= j < out@.len() && #[trigger] out@[j].0@ == k by {
        let j = choose|j: int| 0 <= j < keys@.len() && keys@[j]@ == k;
        assert(out@[j].0@ == k);
    }
    out
}

/// Ends a changing operation that succeeded with `reply`, given what
/// encoding the changed entries gave: their text to persist, or the
/// encoder's message, which turns into a type error with nothing written.
pub fn write_back<T>(reply: T, encoded: Result<Vec<u8>, String>) -> (r: Outcome<T>)
    ensures
        match encoded {
            Ok(bytes) => r.result == Ok::<T, Error>(reply) && r.write_back == Some(bytes),
            Err(msg) => r.result == Err::<T, Error>(Error::Type(msg)) && r.write_back is None,
        },
{
    match encoded {
        Ok(bytes) => Outcome { result: Ok(reply), write_back: Some(bytes) },
        Err(msg) => Outcome { result: Err(Error::Type(msg)), write_back: None },
    }
}

/// Ends a changing operation: persists the entries where it succeeded,
/// writes nothing where it failed.
fn persist<T>(map: Object, reply: Result<T, Error>) -> (r: Outcome<T>)
    ensures
        match reply {
            Ok(x) => saves(r, x, entries(map)),
            Err(e) => reads(r, Err::<T, Error>(e)),
        },
{
    match reply {
        Ok(x) => write_back(x, to_pretty_bytes(map)),
        Err(e) => Outcome { result: Err(e), write_back: None },
    }
}

/// Reads the value of `key`: `NotFound` where the document has no such entry.
/// Nothing is written.
pub fn get(content: &[u8], key: &str) -> (r: Outcome<Value>)
    ensures
        match document(content@) {
            Some(m) => reads(r, get_reply(m, key@)),
            None => corrupted(r, content@),
        },
{
    match load(content) {
        Ok(mut map) => Outcome { result: get_entry(&mut map, key), write_back: None },
        Err(e) => Outcome { result: Err(e), write_back: None },
    }
}

/// Whether the document has an entry for `key`. Nothing is written.
pub fn has_value(content: &[u8], key: &str) -> (r: Outcome<bool>)
    ensures
        match document(content@) {
            Some(m) => reads(r, Ok(m.contains_key(key@))),
            None => corrupted(r, content@),
        },
{
    match load(content) {
        Ok(map) => Outcome { result: Ok(has_entry(&map, key)), write_back: None },
        Err(e) => Outcome { result: Err(e), write_back: None },
    }
}

/// Sets `key` to `value`, the value already encoded as JSON, or the message
/// of the encoder that failed on it; persists the document where that worked.
pub fn set(content: &[u8], key: &str, value: Result<Value, String>) -> (r: Outcome<()>)
    ensures
        match document(content@) {
            Some(m) => match value {
                Ok(v) => saves(r, (), set_entries(m, key@, v)),
                Err(msg) => reads(r, Err(Error::Type(msg))),
            },
            None => corrupted(r, content@),
        },
{
    match load(content) {
        Ok(mut map) => {
            let reply = set_entry(&mut map, key, value);
            persist(map, reply)
        },
        Err(e) => Outcome { result: Err(e), write_back: None },
    }
}

/// Removes the entry for `key`, if there is one, and persists the document.
pub fn clear(content: &[u8], key: &str) -> (r: Outcome<()>)
    ensures
        match document(content@) {
            Some(m) => saves(r, (), clear_entries(m, key@)),
            None => corrupted(r, content@),
        },
{
    match load(content) {
        Ok(mut map) => {
            let reply = clear_entry(&mut map, key);
            persist(map, reply)
        },
        Err(e) => Outcome { result: Err(e), write_back: None },
    }
}

/// Every entry of the document, each once, in no promised order. Nothing is
/// written.
pub fn list_values(content: &[u8]) -> (r: Outcome<Vec<(String, Value)>>)
    ensures
        match document(content@) {
            Some(m) => r.result is Ok && lists(r.result->Ok_0@, m) && r.write_back is None,
            None => corrupted(r, content@),
        },
{
    match load(content) {
        Ok(mut map) => Outcome { result: Ok(list_entries(&mut map)), write_back: None },
        Err(e) => Outcome { result: Err(e), write_back: None },
    }
}

} // verus!
