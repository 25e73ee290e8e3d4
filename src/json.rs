//! What the library assumes of serde_json: its value and map types, parsing,
//! pretty printing, and the map operations that the store calls.

use vstd::prelude::*;

verus! {

#[verifier::external_type_specification]
#[verifier::external_body]
pub struct ExValue(serde_json::Value);

#[verifier::external_type_specification]
#[verifier::external_body]
#[verifier::reject_recursive_types(K)]
#[verifier::reject_recursive_types(V)]
pub struct ExMap<K, V>(serde_json::Map<K, V>);

/// The key/value pairs that a JSON map holds.
pub uninterp spec fn entries(m: serde_json::Map<String, serde_json::Value>) -> Map<
    Seq<char>,
    serde_json::Value,
>;

/// The map inside a JSON value when the value is an object (`Value::as_object`).
pub uninterp spec fn object_of(v: serde_json::Value) -> Option<
    serde_json::Map<String, serde_json::Value>,
>;

/// What `serde_json::from_slice` makes of the given bytes: the value read, or
/// the text of its error.
pub uninterp spec fn parsed(b: Seq<u8>) -> Result<serde_json::Value, Seq<char>>;

/// The text that `serde_json::to_string_pretty` writes for a value.
pub uninterp spec fn pretty_text(v: serde_json::Value) -> Seq<char>;

/// The entries of an empty map.
pub open spec fn no_entries() -> Map<Seq<char>, serde_json::Value> {
    Map::empty()
}

/// Relies on `serde_json::Map::new`: the new map is empty.
#[verifier::external_body]
pub(crate) fn new_map() -> (r: serde_json::Map<String, serde_json::Value>)
    ensures
        entries(r) == no_entries(),
{
    serde_json::Map::new()
}

/// Relies on `serde_json::Map::insert`: the key is bound to the value, any
/// earlier value under it is replaced, and the other keys are untouched.
#[verifier::external_body]
pub(crate) fn map_insert(
    m: &mut serde_json::Map<String, serde_json::Value>,
    k: String,
    v: serde_json::Value,
)
    ensures
        entries(*final(m)) == entries(*old(m)).insert(k@, v),
{
    m.insert(k, v);
}

/// Relies on `serde_json::Map::remove`: the key leaves the map and the value
/// it held, if any, is handed back.
#[verifier::external_body]
pub(crate) fn map_remove(m: &mut serde_json::Map<String, serde_json::Value>, k: &str) -> (r:
    Option<serde_json::Value>)
    ensures
        entries(*final(m)) == entries(*old(m)).remove(k@),
        entries(*old(m)).contains_key(k@) ==> r == Some(entries(*old(m))[k@]),
        !entries(*old(m)).contains_key(k@) ==> r is None,
{
    m.remove(k)
}

/// Relies on `serde_json::Map::get`: the value under the key, if any.
#[verifier::external_body]
pub(crate) fn map_get<'a>(m: &'a serde_json::Map<String, serde_json::Value>, k: &str) -> (r:
    Option<&'a serde_json::Value>)
    ensures
        entries(*m).contains_key(k@) ==> r == Some(&entries(*m)[k@]),
        !entries(*m).contains_key(k@) ==> r is None,
{
    m.get(k)
}

/// Relies on `serde_json::Map::contains_key`.
#[verifier::external_body]
pub(crate) fn map_contains(m: &serde_json::Map<String, serde_json::Value>, k: &str) -> (r: bool)
    ensures
        r == entries(*m).contains_key(k@),
{
    m.contains_key(k)
}

/// Relies on `serde_json::Value::as_object`: the map of an object value.
#[verifier::external_body]
pub(crate) fn as_object(v: &serde_json::Value) -> (r: Option<
    &serde_json::Map<String, serde_json::Value>,
>)
    ensures
        object_of(*v) is Some <==> r is Some,
        r is Some ==> object_of(*v) == Some(*r->Some_0),
{
    v.as_object()
}

/// Relies on the `Value::Object` variant: an object value is taken apart into
/// its map, any other value is handed back as it was.
#[verifier::external_body]
pub(crate) fn into_object(v: serde_json::Value) -> (r: Result<
    serde_json::Map<String, serde_json::Value>,
    serde_json::Value,
>)
    ensures
        object_of(v) is Some <==> r is Ok,
        r is Ok ==> object_of(v) == Some(r->Ok_0),
        r is Err ==> r->Err_0 == v,
{
    match v {
        serde_json::Value::Object(m) => Ok(m),
        other => Err(other),
    }
}

/// Relies on `From<Map<String, Value>> for Value`: the map wrapped as an
/// object value.
#[verifier::external_body]
pub(crate) fn object_value(m: serde_json::Map<String, serde_json::Value>) -> (r:
    serde_json::Value)
    ensures
        object_of(r) == Some(m),
{
    serde_json::Value::from(m)
}

/// Relies on `serde_json::from_slice` into a `Value`, and on `Display` for its
/// error: the value read, or the message that names what is wrong and where.
#[verifier::external_body]
pub(crate) fn parse(b: &[u8]) -> (r: Result<serde_json::Value, String>)
    ensures
        r is Ok <==> parsed(b@) is Ok,
        r is Ok ==> parsed(b@) == Ok::<serde_json::Value, Seq<char>>(r->Ok_0),
        r is Err ==> parsed(b@) == Err::<serde_json::Value, Seq<char>>(r->Err_0@),
{
    match serde_json::from_slice(b) {
        Ok(v) => Ok(v),
        Err(e) => Err(e.to_string()),
    }
}

/// Relies on `serde_json::to_string_pretty` on a `Value`: the indented text of
/// the value. Serialising a `Value` cannot fail, since its keys are strings
/// and the output goes to memory.
#[verifier::external_body]
pub(crate) fn to_pretty(v: &serde_json::Value) -> (r: Result<String, String>)
    ensures
        r is Ok,
        r is Ok ==> r->Ok_0@ == pretty_text(*v),
{
    match serde_json::to_string_pretty(v) {
        Ok(t) => Ok(t),
        Err(e) => Err(e.to_string()),
    }
}

} // verus!
