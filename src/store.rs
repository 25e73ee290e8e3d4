//! The document store: reading and writing a configuration document, and
//! upserting or removing named entries in the server collection inside it.

use crate::json::{
    as_object, entries, into_object, map_contains, map_get, map_insert, map_remove,
    new_map, no_entries, object_of, object_value, parse, parsed, pretty_text, to_pretty,
};
use serde_json::Value;
use vstd::prelude::*;

verus! {

/// The top-level key under which the server entries are kept.
pub const SERVERS_KEY: &'static str = "mcpServers";

/// Why an operation of the store failed.
#[derive(Debug)]
pub enum StoreError {
    /// The document's file is absent and its location may not start empty.
    NotFound { location: String },
    /// The content at `location` is not one JSON text.
    Parse { location: String, message: String },
    /// The document could not be encoded.
    Serialize { message: String },
}

/// The top-level entries of a document; a non-object has none.
pub open spec fn top_entries(d: Value) -> Map<Seq<char>, Value> {
    match object_of(d) {
        Some(m) => entries(m),
        None => Map::empty(),
    }
}

/// The entries of the collection under `key`, when the document is an object
/// that holds an object there.
pub open spec fn collection_object(d: Value, key: Seq<char>) -> Option<Map<Seq<char>, Value>> {
    if top_entries(d).contains_key(key) {
        match object_of(top_entries(d)[key]) {
            Some(c) => Some(entries(c)),
            None => None,
        }
    } else {
        None
    }
}

/// The collection under `key` as the store sees it: a missing or
/// non-object collection is empty.
pub open spec fn collection_entries(d: Value, key: Seq<char>) -> Map<Seq<char>, Value> {
    match collection_object(d, key) {
        Some(c) => c,
        None => Map::empty(),
    }
}

/// A document seen as its other top-level entries and its collection.
pub open spec fn split_view(d: Value, key: Seq<char>) -> (
    Map<Seq<char>, Value>,
    Map<Seq<char>, Value>,
) {
    (top_entries(d).remove(key), collection_entries(d, key))
}

/// `r` is `d` with `entry` stored under `name` in the collection at `key`:
/// `r` is an object whose collection is an object, the other top-level
/// entries are those of `d`, and the collection is that of `d` with the
/// entry set.
pub open spec fn is_upsert_of(
    d: Value,
    key: Seq<char>,
    name: Seq<char>,
    entry: Value,
    r: Value,
) -> bool {
    &&& object_of(r) is Some
    &&& collection_object(r, key) is Some
    &&& split_view(r, key) == (split_view(d, key).0, split_view(d, key).1.insert(name, entry))
}

/// `r` is `d` with `name` taken out of the collection at `key`; where the
/// collection is not an object or has no such name, `r` is `d` itself.
pub open spec fn is_removal_of(d: Value, key: Seq<char>, name: Seq<char>, r: Value) -> bool {
    if collection_object(d, key) is Some && collection_entries(d, key).contains_key(name) {
        &&& object_of(r) is Some
        &&& collection_object(r, key) is Some
        &&& split_view(r, key) == (split_view(d, key).0, split_view(d, key).1.remove(name))
    } else {
        r == d
    }
}

/// Sets `name` to `entry` in the collection under `key`, replacing a
/// non-object document or collection by an empty object first.
pub fn upsert_entry(doc: Value, key: &str, name: &str, entry: Value) -> (r: Value)
    ensures
        is_upsert_of(doc, key@, name@, entry, r),
{
    let mut top = match into_object(doc) {
        Ok(m) => m,
        Err(_) => new_map(),
    };
    let ghost top0 = entries(top);
    let mut coll = match map_remove(&mut top, key) {
        Some(v) => match into_object(v) {
            Ok(c) => c,
            Err(_) => new_map(),
        },
        None => new_map(),
    };
    let ghost coll0 = entries(coll);
    map_insert(&mut coll, name.to_owned(), entry);
    let cv = object_value(coll);
    map_insert(&mut top, key.to_owned(), cv);
    let r = object_value(top);
    assert(top_entries(r).remove(key@) =~= top0.remove(key@));
    assert(coll0 == collection_entries(doc, key@));
    r
}

/// Takes `name` out of the collection under `key`. A document without an
/// object collection there, or without that name in it, is handed back as
/// it is.
pub fn remove_entry(doc: Value, key: &str, name: &str) -> (r: Value)
    ensures
        is_removal_of(doc, key@, name@, r),
{
    let present = match as_object(&doc) {
        Some(top) => match map_get(top, key) {
            Some(c) => match as_object(c) {
                Some(cm) => map_contains(cm, name),
                None => false,
            },
            None => false,
        },
        None => false,
    };
    if !present {
        return doc;
    }
    let mut top = match into_object(doc) {
        Ok(m) => m,
        Err(_) => new_map(),
    };
    let ghost top0 = entries(top);
    let mut coll = match map_remove(&mut top, key) {
        Some(v) => match into_object(v) {
            Ok(c) => c,
            Err(_) => new_map(),
        },
        None => new_map(),
    };
    let _ = map_remove(&mut coll, name);
    let cv = object_value(coll);
    map_insert(&mut top, key.to_owned(), cv);
    let r = object_value(top);
    assert(top_entries(r).remove(key@) =~= top0.remove(key@));
    r
}

/// `e` is a parse failure of the content at `location`, with `message`.
pub open spec fn is_parse_error_at(e: StoreError, location: Seq<char>, message: Seq<char>) -> bool {
    match e {
        StoreError::Parse { location: l, message: m } => l@ == location && m@ == message,
        _ => false,
    }
}

/// `e` says that the file at `location` is absent.
pub open spec fn is_not_found_at(e: StoreError, location: Seq<char>) -> bool {
    match e {
        StoreError::NotFound { location: l } => l@ == location,
        _ => false,
    }
}

/// What reading `bytes` from `location` gives: an empty object for empty
/// content, the parsed value for one JSON text, and a parse failure else.
pub open spec fn is_read_of(bytes: Seq<u8>, location: Seq<char>, r: Result<Value, StoreError>) -> bool {
    if bytes.len() == 0 {
        &&& r is Ok
        &&& object_of(r->Ok_0) is Some
        &&& top_entries(r->Ok_0) == no_entries()
    } else {
        match parsed(bytes) {
            Ok(d) => r == Ok::<Value, StoreError>(d),
            Err(m) => r is Err && is_parse_error_at(r->Err_0, location, m),
        }
    }
}

/// The content of a file, with an absent file read as empty.
pub open spec fn content_bytes(content: Option<&[u8]>) -> Seq<u8> {
    match content {
        Some(b) => b@,
        None => Seq::empty(),
    }
}

/// The split view under `key` of the document stored as `bytes`, if they
/// can be read.
pub open spec fn stored_split(bytes: Seq<u8>, key: Seq<char>) -> Option<
    (Map<Seq<char>, Value>, Map<Seq<char>, Value>),
> {
    if bytes.len() == 0 {
        Some((no_entries(), no_entries()))
    } else {
        match parsed(bytes) {
            Ok(d) => Some(split_view(d, key)),
            Err(_) => None,
        }
    }
}

/// Reads a document from the content of `location`. Empty content is an
/// empty object; content that is not one JSON text fails.
pub fn read_document(bytes: &[u8], location: &str) -> (r: Result<Value, StoreError>)
    ensures
        is_read_of(bytes@, location@, r),
{
    if bytes.len() == 0 {
        let r = object_value(new_map());
        return Ok(r);
    }
    match parse(bytes) {
        Ok(d) => Ok(d),
        Err(e) => Err(StoreError::Parse { location: location.to_owned(), message: e }),
    }
}

/// Reads the document stored at `location` from the content of its file,
/// with `None` for a file that does not exist. An absent file reads as an
/// empty document only where its location allows that (`may_start_empty`);
/// elsewhere it is not found.
pub fn read_json_file(location: &str, content: Option<&[u8]>, may_start_empty: bool) -> (r: Result<
    Value,
    StoreError,
>)
    ensures
        content is Some ==> is_read_of(content->Some_0@, location@, r),
        content is None && may_start_empty ==> is_read_of(Seq::empty(), location@, r),
        content is None && !may_start_empty ==> r is Err && is_not_found_at(r->Err_0, location@),
{
    match content {
        Some(b) => read_document(b, location),
        None => {
            if may_start_empty {
                let empty: Vec<u8> = Vec::new();
                read_document(empty.as_slice(), location)
            } else {
                Err(StoreError::NotFound { location: location.to_owned() })
            }
        },
    }
}

/// The indented JSON text to store for a document.
pub fn write_json_file(content: &Value) -> (r: Result<String, StoreError>)
    ensures
        r is Ok,
        r is Ok ==> r->Ok_0@ == pretty_text(*content),
{
    match to_pretty(content) {
        Ok(t) => Ok(t),
        Err(e) => Err(StoreError::Serialize { message: e }),
    }
}

/// `d` and its text `t` are the stored document after `entry` was set under
/// `name` in the server collection, starting from the content `bytes`.
pub open spec fn is_saved_upsert(
    bytes: Seq<u8>,
    name: Seq<char>,
    entry: Value,
    d: Value,
    t: Seq<char>,
) -> bool {
    let s = stored_split(bytes, SERVERS_KEY@);
    &&& s is Some
    &&& object_of(d) is Some
    &&& collection_object(d, SERVERS_KEY@) is Some
    &&& split_view(d, SERVERS_KEY@) == (s->Some_0.0, s->Some_0.1.insert(name, entry))
    &&& bytes.len() > 0 ==> is_upsert_of(parsed(bytes)->Ok_0, SERVERS_KEY@, name, entry, d)
    &&& t == pretty_text(d)
}

/// `d` and its text `t` are the stored document after `name` was taken out
/// of the server collection, starting from the content `bytes`.
pub open spec fn is_saved_removal(bytes: Seq<u8>, name: Seq<char>, d: Value, t: Seq<char>) -> bool {
    let s = stored_split(bytes, SERVERS_KEY@);
    &&& s is Some
    &&& split_view(d, SERVERS_KEY@) == (s->Some_0.0, s->Some_0.1.remove(name))
    &&& bytes.len() == 0 ==> object_of(d) is Some && top_entries(d) == no_entries()
    &&& bytes.len() > 0 ==> is_removal_of(parsed(bytes)->Ok_0, SERVERS_KEY@, name, d)
    &&& t == pretty_text(d)
}

/// Sets a server entry in the document stored at `location`, whose current
/// content is `content` (`None` for an absent file, read as empty). Returns
/// the new document and the text to store for it.
pub fn add_mcp_server(
    location: &str,
    content: Option<&[u8]>,
    server_name: &str,
    server_config: Value,
) -> (r: Result<(Value, String), StoreError>)
    ensures
        r is Ok <==> stored_split(content_bytes(content), SERVERS_KEY@) is Some,
        r is Err ==> is_parse_error_at(
            r->Err_0,
            location@,
            parsed(content_bytes(content))->Err_0,
        ),
        r is Ok ==> is_saved_upsert(
            content_bytes(content),
            server_name@,
            server_config,
            r->Ok_0.0,
            r->Ok_0.1@,
        ),
{
    let empty: Vec<u8> = Vec::new();
    let bytes = match content {
        Some(b) => b,
        None => empty.as_slice(),
    };
    let doc = match read_document(bytes, location) {
        Ok(d) => d,
        Err(e) => return Err(e),
    };
    let ghost before = doc;
    let d = upsert_entry(doc, SERVERS_KEY, server_name, server_config);
    proof {
        if bytes@.len() == 0 {
            assert(top_entries(before).remove(SERVERS_KEY@) =~= no_entries());
        }
    }
    match write_json_file(&d) {
        Ok(t) => Ok((d, t)),
        Err(e) => Err(e),
    }
}

/// Sets a server entry, replacing the one of the same name if there is one;
/// the same operation as [`add_mcp_server`].
pub fn update_mcp_server(
    location: &str,
    content: Option<&[u8]>,
    server_name: &str,
    server_config: Value,
) -> (r: Result<(Value, String), StoreError>)
    ensures
        r is Ok <==> stored_split(content_bytes(content), SERVERS_KEY@) is Some,
        r is Err ==> is_parse_error_at(
            r->Err_0,
            location@,
            parsed(content_bytes(content))->Err_0,
        ),
        r is Ok ==> is_saved_upsert(
            content_bytes(content),
            server_name@,
            server_config,
            r->Ok_0.0,
            r->Ok_0.1@,
        ),
{
    add_mcp_server(location, content, server_name, server_config)
}

/// Takes a server entry out of the document stored at `location`, whose
/// current content is `content` (`None` for an absent file, read as empty).
/// Returns the new document and the text to store for it.
pub fn remove_mcp_server(location: &str, content: Option<&[u8]>, server_name: &str) -> (r: Result<
    (Value, String),
    StoreError,
>)
    ensures
        r is Ok <==> stored_split(content_bytes(content), SERVERS_KEY@) is Some,
        r is Err ==> is_parse_error_at(
            r->Err_0,
            location@,
            parsed(content_bytes(content))->Err_0,
        ),
        r is Ok ==> is_saved_removal(content_bytes(content), server_name@, r->Ok_0.0, r->Ok_0.1@),
{
    let empty: Vec<u8> = Vec::new();
    let bytes = match content {
        Some(b) => b,
        None => empty.as_slice(),
    };
    let doc = match read_document(bytes, location) {
        Ok(d) => d,
        Err(e) => return Err(e),
    };
    let ghost before = doc;
    let d = remove_entry(doc, SERVERS_KEY, server_name);
    proof {
        if bytes@.len() == 0 {
            assert(top_entries(before).remove(SERVERS_KEY@) =~= no_entries());
            assert(no_entries().remove(server_name@) =~= no_entries());
        }
        if collection_object(before, SERVERS_KEY@) is None || !collection_entries(before, SERVERS_KEY@).contains_key(server_name@) {
            assert(collection_entries(before, SERVERS_KEY@).remove(server_name@) =~= collection_entries(before, SERVERS_KEY@));
        }
    }
    match write_json_file(&d) {
        Ok(t) => Ok((d, t)),
        Err(e) => Err(e),
    }
}

} // verus!
