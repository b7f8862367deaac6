use krossbar_settings::document;
use krossbar_settings::document::{
    clear, get, has_value, initial_content, list_values, load, write_back, Error,
};
use serde_json::Value;

fn bytes(s: &str) -> Vec<u8> {
    s.as_bytes().to_vec()
}

/// Applies a set and returns the content it persisted.
fn set_on(content: &[u8], key: &str, value: Value) -> Vec<u8> {
    let r = document::set(content, key, Ok(value));
    assert_eq!(r.result, Ok(()));
    r.write_back.expect("a successful set persists the document")
}

/// Applies a clear and returns the content it persisted.
fn clear_on(content: &[u8], key: &str) -> Vec<u8> {
    let r = clear(content, key);
    assert_eq!(r.result, Ok(()));
    r.write_back.expect("a successful clear persists the document")
}

#[test]
fn initial_content_is_empty_object() {
    let content = initial_content();
    assert_eq!(content, b"{}".to_vec());
    let map = load(&content).expect("the initial content is an object");
    assert!(map.is_empty());
    let r = has_value(&content, "anything");
    assert_eq!(r.result, Ok(false));
    assert!(r.write_back.is_none());
}

#[test]
fn set_then_get_gives_the_value() {
    let values = vec![
        Value::from(5),
        Value::from("text"),
        Value::from(true),
        Value::Null,
        serde_json::from_str::<Value>("[1, 2, {\"x\": 3}]").unwrap(),
        serde_json::from_str::<Value>("{\"a\": {\"b\": [null, 1.5]}}").unwrap(),
    ];
    for v in values {
        let content = set_on(&initial_content(), "key", v.clone());
        let r = get(&content, "key");
        assert_eq!(r.result, Ok(v));
        assert!(r.write_back.is_none());
    }
}

#[test]
fn set_overwrites_previous_value() {
    let content = set_on(&initial_content(), "k", Value::from(1));
    let content = set_on(&content, "k", Value::from("two"));
    assert_eq!(get(&content, "k").result, Ok(Value::from("two")));
    assert_eq!(list_values(&content).result.unwrap().len(), 1);
}

#[test]
fn has_value_follows_set_and_clear() {
    let content = set_on(&initial_content(), "k", Value::from(1));
    assert_eq!(has_value(&content, "k").result, Ok(true));
    let content = clear_on(&content, "k");
    assert_eq!(has_value(&content, "k").result, Ok(false));
}

#[test]
fn clear_missing_key_keeps_document() {
    let given = bytes("{\"a\": 1, \"b\": \"x\"}");
    let content = clear_on(&given, "missing");
    let before: Value = serde_json::from_slice(&given).unwrap();
    let after: Value = serde_json::from_slice(&content).unwrap();
    assert_eq!(before, after);
}

#[test]
fn get_missing_key_is_not_found() {
    let r = get(&initial_content(), "never");
    assert_eq!(r.result, Err(Error::NotFound));
    assert!(r.write_back.is_none());
}

#[test]
fn get_cleared_key_is_not_found() {
    let content = set_on(&initial_content(), "k", Value::from(1));
    let content = clear_on(&content, "k");
    assert_eq!(get(&content, "k").result, Err(Error::NotFound));
}

#[test]
fn set_with_unencodable_value_is_type_error() {
    let r = document::set(&initial_content(), "k", Err("cannot encode".to_string()));
    assert_eq!(r.result, Err(Error::Type("cannot encode".to_string())));
    assert!(r.write_back.is_none());
}

#[test]
fn list_values_after_two_sets() {
    let content = set_on(&initial_content(), "a", Value::from(1));
    let content = set_on(&content, "b", Value::from("x"));
    let r = list_values(&content);
    assert!(r.write_back.is_none());
    let mut list = r.result.unwrap();
    list.sort_by(|p, q| p.0.cmp(&q.0));
    assert_eq!(
        list,
        vec![
            ("a".to_string(), Value::from(1)),
            ("b".to_string(), Value::from("x")),
        ]
    );
}

#[test]
fn list_values_of_empty_document() {
    assert_eq!(list_values(&initial_content()).result, Ok(vec![]));
}

#[test]
fn array_root_is_corrupted() {
    let content = bytes("[1, 2, 3]");
    assert!(matches!(get(&content, "a").result, Err(Error::Corrupted(_))));
    assert!(matches!(has_value(&content, "a").result, Err(Error::Corrupted(_))));
    let r = document::set(&content, "a", Ok(Value::from(1)));
    assert!(matches!(r.result, Err(Error::Corrupted(_))));
    assert!(r.write_back.is_none());
    let r = clear(&content, "a");
    assert!(matches!(r.result, Err(Error::Corrupted(_))));
    assert!(r.write_back.is_none());
    assert!(matches!(list_values(&content).result, Err(Error::Corrupted(_))));
}

#[test]
fn scalar_root_is_corrupted() {
    for text in ["42", "\"text\"", "null", "true"] {
        let r = has_value(&bytes(text), "a");
        assert!(matches!(r.result, Err(Error::Corrupted(_))));
    }
}

#[test]
fn non_object_root_message() {
    assert_eq!(
        get(&bytes("[]"), "a").result,
        Err(Error::Corrupted("Root settings element is not an Object".to_string()))
    );
}

#[test]
fn invalid_json_is_corrupted() {
    for text in ["", "{", "{\"a\": }", "not json"] {
        let r = clear(&bytes(text), "a");
        assert!(matches!(r.result, Err(Error::Corrupted(_))));
        assert!(r.write_back.is_none());
    }
}

#[test]
fn persisted_content_keeps_sets_and_drops_clears() {
    let content = set_on(&initial_content(), "a", Value::from(1));
    let content = set_on(&content, "b", Value::from("x"));
    let content = set_on(&content, "c", Value::from(vec![1, 2]));
    let content = clear_on(&content, "a");
    let content = set_on(&content, "b", Value::from("y"));
    assert_eq!(get(&content, "a").result, Err(Error::NotFound));
    assert_eq!(get(&content, "b").result, Ok(Value::from("y")));
    assert_eq!(get(&content, "c").result, Ok(Value::from(vec![1, 2])));
    assert_eq!(list_values(&content).result.unwrap().len(), 2);
}

#[test]
fn persisted_content_is_indented() {
    let content = set_on(&initial_content(), "a", Value::from(1));
    assert_eq!(String::from_utf8(content).unwrap(), "{\n  \"a\": 1\n}");
}

#[test]
fn load_reads_existing_entries() {
    let map = load(&bytes("{\"a\": 1, \"b\": [true]}")).unwrap();
    assert_eq!(map.len(), 2);
    assert_eq!(map.get("a"), Some(&Value::from(1)));
}

#[test]
fn write_back_keeps_reply_or_fails_with_type() {
    let r = write_back(7u32, Ok(vec![1u8, 2]));
    assert_eq!(r.result, Ok(7));
    assert_eq!(r.write_back, Some(vec![1u8, 2]));
    let r = write_back(7u32, Err("bad".to_string()));
    assert_eq!(r.result, Err(Error::Type("bad".to_string())));
    assert!(r.write_back.is_none());
}

#[test]
fn invalid_json_message_is_the_parser_message() {
    let content = bytes("{\"a\": ");
    let expected = serde_json::from_slice::<Value>(&content).unwrap_err().to_string();
    assert_eq!(get(&content, "a").result, Err(Error::Corrupted(expected.clone())));
    assert_eq!(get(&content, "a").result, Err(Error::Corrupted(expected)));
}

#[test]
fn clear_on_fresh_document_writes_empty_object() {
    let r = clear(&initial_content(), "nope");
    assert_eq!(r.result, Ok(()));
    assert_eq!(r.write_back, Some(b"{}".to_vec()));
}

#[test]
fn clear_twice_writes_the_same_text() {
    let content = set_on(&initial_content(), "a", Value::from(1));
    let content = set_on(&content, "b", Value::from(2));
    let once = clear_on(&content, "a");
    let twice = clear_on(&once, "a");
    assert_eq!(once, twice);
}

#[test]
fn set_same_value_twice_writes_the_same_text() {
    let once = set_on(&initial_content(), "k", Value::from("v"));
    let twice = set_on(&once, "k", Value::from("v"));
    assert_eq!(once, twice);
}
