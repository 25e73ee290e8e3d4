use mcp_config::{
    add_mcp_server, read_document, read_json_file, remove_entry,
    remove_mcp_server, update_mcp_server, upsert_entry, write_json_file, StoreError, SERVERS_KEY,
};
use serde_json::Value;

fn value(text: &str) -> Value {
    serde_json::from_str(text).unwrap()
}

fn read(text: &str) -> Value {
    read_document(text.as_bytes(), "config.json").unwrap()
}

#[test]
fn upsert_keeps_other_keys_and_entries() {
    let d = read(r#"{"mcpServers": {"a": 1, "b": [2]}, "theme": "dark", "n": {"m": null}}"#);
    let r = upsert_entry(d, SERVERS_KEY, "c", value(r#"{"cmd": "run"}"#));
    assert_eq!(
        r,
        value(r#"{"mcpServers": {"a": 1, "b": [2], "c": {"cmd": "run"}}, "theme": "dark", "n": {"m": null}}"#)
    );
}

#[test]
fn upsert_overwrites_existing_entry() {
    let d = read(r#"{"mcpServers": {"a": {"old": true}}, "x": 0}"#);
    let r = upsert_entry(d, SERVERS_KEY, "a", value(r#"{"new": 1}"#));
    assert_eq!(r, value(r#"{"mcpServers": {"a": {"new": 1}}, "x": 0}"#));
}

#[test]
fn upsert_creates_missing_collection() {
    let d = read(r#"{"other": true}"#);
    let r = upsert_entry(d, SERVERS_KEY, "s", value("7"));
    assert_eq!(r, value(r#"{"other": true, "mcpServers": {"s": 7}}"#));
}

#[test]
fn upsert_replaces_non_object_document() {
    let r = upsert_entry(value("[1, 2]"), SERVERS_KEY, "s", Value::Null);
    assert_eq!(r, value(r#"{"mcpServers": {"s": null}}"#));
}

#[test]
fn upsert_twice_equals_once() {
    let d = read(r#"{"mcpServers": {"a": 1}, "k": "v"}"#);
    let once = upsert_entry(d.clone(), SERVERS_KEY, "b", value("[true]"));
    let twice = upsert_entry(once.clone(), SERVERS_KEY, "b", value("[true]"));
    assert_eq!(once, twice);
}

#[test]
fn remove_absent_name_is_unchanged() {
    let d = read(r#"{"mcpServers": {"a": 1}, "k": "v"}"#);
    let r = remove_entry(d.clone(), SERVERS_KEY, "zzz");
    assert_eq!(r, d);
}

#[test]
fn remove_takes_out_only_that_entry() {
    let d = read(r#"{"mcpServers": {"a": 1, "b": 2}, "k": "v"}"#);
    let r = remove_entry(d, SERVERS_KEY, "a");
    assert_eq!(r, value(r#"{"mcpServers": {"b": 2}, "k": "v"}"#));
}

#[test]
fn remove_with_non_object_collection_is_unchanged() {
    let d = read(r#"{"mcpServers": 5, "k": "v"}"#);
    let r = remove_entry(d.clone(), SERVERS_KEY, "a");
    assert_eq!(r, d);
}

#[test]
fn repair_replaces_non_object_collection() {
    let d = read(r#"{"K": "not-an-object", "other": 1}"#);
    let r = upsert_entry(d, "K", "srv", value(r#"{"x":1}"#));
    assert_eq!(r, value(r#"{"K": {"srv": {"x":1}}, "other": 1}"#));
}

#[test]
fn empty_content_reads_as_empty_object() {
    let d = read_document(b"", "config.json").unwrap();
    assert_eq!(d, value("{}"));
}

#[test]
fn missing_collection_remove_is_no_op() {
    let d = read(r#"{"other": true}"#);
    let r = remove_entry(d, "K", "anything");
    assert_eq!(r, value(r#"{"other": true}"#));
}

#[test]
fn malformed_content_fails_to_parse() {
    let e = read_document(b"{not valid json", "/tmp/app.json").unwrap_err();
    match e {
        StoreError::Parse { location, message } => {
            assert_eq!(location, "/tmp/app.json");
            let expected = serde_json::from_slice::<Value>(b"{not valid json").unwrap_err();
            assert_eq!(message, expected.to_string());
            assert!(message.contains("line 1"));
        }
        other => panic!("unexpected error {:?}", other),
    }
}

#[test]
fn non_object_document_reads_as_is() {
    assert_eq!(read("[1, \"a\"]"), value("[1, \"a\"]"));
}

#[test]
fn write_then_read_gives_same_document() {
    let text = r#"{"b": [1, 2.5, "x"], "a": {"mcpServers": {}}, "c": null}"#;
    let d = read(text);
    let out = write_json_file(&d).unwrap();
    assert_eq!(read(&out), d);
    assert_eq!(write_json_file(&read(&out)).unwrap(), out);
}

#[test]
fn write_is_indented() {
    let out = write_json_file(&value(r#"{"a": 1}"#)).unwrap();
    assert_eq!(out, "{\n  \"a\": 1\n}");
}

#[test]
fn read_missing_file_is_not_found() {
    match read_json_file("/x/mcp.json", None, false).unwrap_err() {
        StoreError::NotFound { location } => assert_eq!(location, "/x/mcp.json"),
        other => panic!("unexpected error {:?}", other),
    }
}

#[test]
fn read_missing_optional_file_is_empty() {
    assert_eq!(read_json_file("/x/c.json", None, true).unwrap(), value("{}"));
}

#[test]
fn read_present_file_parses() {
    let r = read_json_file("/x/mcp.json", Some(br#"{"a": 1}"#.as_slice()), false).unwrap();
    assert_eq!(r, value(r#"{"a": 1}"#));
}

#[test]
fn add_to_absent_file() {
    let (d, t) = add_mcp_server("/x/m.json", None, "srv", value(r#"{"command": "node"}"#)).unwrap();
    assert_eq!(d, value(r#"{"mcpServers": {"srv": {"command": "node"}}}"#));
    assert_eq!(value(&t), d);
    assert_eq!(t, write_json_file(&d).unwrap());
}

#[test]
fn update_replaces_entry() {
    let content = br#"{"mcpServers": {"srv": {"command": "old"}}, "keep": 1}"#;
    let (d, _) =
        update_mcp_server("/x/m.json", Some(content.as_slice()), "srv", value(r#"{"command": "new"}"#))
            .unwrap();
    assert_eq!(d, value(r#"{"mcpServers": {"srv": {"command": "new"}}, "keep": 1}"#));
}

#[test]
fn add_to_malformed_file_fails() {
    let r = add_mcp_server("/x/m.json", Some(b"{oops".as_slice()), "s", Value::Null);
    assert!(matches!(r, Err(StoreError::Parse { .. })));
}

#[test]
fn remove_from_file() {
    let content = br#"{"mcpServers": {"a": 1, "b": 2}}"#;
    let (d, t) = remove_mcp_server("/x/m.json", Some(content.as_slice()), "a").unwrap();
    assert_eq!(d, value(r#"{"mcpServers": {"b": 2}}"#));
    assert_eq!(t, "{\n  \"mcpServers\": {\n    \"b\": 2\n  }\n}");
}

#[test]
fn remove_from_absent_file() {
    let (d, t) = remove_mcp_server("/x/m.json", None, "a").unwrap();
    assert_eq!(d, value("{}"));
    assert_eq!(t, "{}");
}

#[test]
fn remove_from_malformed_file_fails() {
    let r = remove_mcp_server("/x/m.json", Some(b"[".as_slice()), "a");
    assert!(matches!(r, Err(StoreError::Parse { location, .. }) if location == "/x/m.json"));
}

#[test]
fn later_upsert_wins() {
    let d = read(r#"{"mcpServers": {"a": 1}}"#);
    let once = upsert_entry(d.clone(), SERVERS_KEY, "s", value(r#"{"v": 1, "w": 2}"#));
    let twice = upsert_entry(once, SERVERS_KEY, "s", value(r#"{"v": 3}"#));
    assert_eq!(twice, upsert_entry(d, SERVERS_KEY, "s", value(r#"{"v": 3}"#)));
    assert_eq!(twice, value(r#"{"mcpServers": {"a": 1, "s": {"v": 3}}}"#));
}

#[test]
fn upserts_of_two_names_commute() {
    let d = read(r#"{"mcpServers": {"a": 1}, "z": [0]}"#);
    let ab = upsert_entry(upsert_entry(d.clone(), SERVERS_KEY, "x", value("1")), SERVERS_KEY, "y", value("2"));
    let ba = upsert_entry(upsert_entry(d, SERVERS_KEY, "y", value("2")), SERVERS_KEY, "x", value("1"));
    assert_eq!(ab, ba);
}

#[test]
fn remove_after_add_restores_document() {
    let d = read(r#"{"mcpServers": {"a": 1}, "z": "q"}"#);
    let added = upsert_entry(d.clone(), SERVERS_KEY, "new", value(r#"{"c": "x"}"#));
    assert_eq!(remove_entry(added, SERVERS_KEY, "new"), d);
}

#[test]
fn write_non_object_value() {
    assert_eq!(write_json_file(&value("[1, null]")).unwrap(), "[\n  1,\n  null\n]");
    assert_eq!(write_json_file(&Value::Null).unwrap(), "null");
}

#[test]
fn remove_from_empty_file_gives_empty_object() {
    let (d, t) = remove_mcp_server("/x/m.json", Some(b"".as_slice()), "a").unwrap();
    assert_eq!(d, value("{}"));
    assert_eq!(t, "{}");
}

#[test]
fn add_replaces_non_object_root() {
    let (d, _) = add_mcp_server("/x/m.json", Some(b"42".as_slice()), "s", value("true")).unwrap();
    assert_eq!(d, value(r#"{"mcpServers": {"s": true}}"#));
}

#[test]
fn add_parse_error_carries_serde_message() {
    let r = add_mcp_server("/x/m.json", Some(b"{oops".as_slice()), "s", Value::Null);
    let expected = serde_json::from_slice::<Value>(b"{oops").unwrap_err().to_string();
    match r {
        Err(StoreError::Parse { location, message }) => {
            assert_eq!(location, "/x/m.json");
            assert_eq!(message, expected);
        }
        other => panic!("unexpected result {:?}", other),
    }
}
