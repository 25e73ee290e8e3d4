//! Laws that relate the store's operations.

use crate::json::object_of;
use crate::store::{
    collection_entries, collection_object, is_removal_of, is_upsert_of, split_view, top_entries,
};
use serde_json::Value;
use vstd::prelude::*;

verus! {

/// Setting an entry in an object collection leaves that collection with the
/// entry added or replaced, and every other top-level key of the document
/// with the value it had.
pub proof fn upsert_touches_only_its_entry(
    d: Value,
    key: Seq<char>,
    name: Seq<char>,
    entry: Value,
    r: Value,
)
    requires
        collection_object(d, key) is Some,
        is_upsert_of(d, key, name, entry, r),
    ensures
        collection_object(r, key) == Some(collection_object(d, key)->Some_0.insert(name, entry)),
        forall|k: Seq<char>|
            k != key ==> (#[trigger] top_entries(r).contains_key(k) == top_entries(d).contains_key(k)),
        forall|k: Seq<char>|
            k != key && top_entries(d).contains_key(k) ==> #[trigger] top_entries(r)[k]
                == top_entries(d)[k],
{
    assert forall|k: Seq<char>| k != key implies #[trigger] top_entries(r).contains_key(k)
        == top_entries(d).contains_key(k) by {
        assert(top_entries(r).remove(key).contains_key(k) == top_entries(r).contains_key(k));
        assert(top_entries(d).remove(key).contains_key(k) == top_entries(d).contains_key(k));
    }
    assert forall|k: Seq<char>| k != key && top_entries(d).contains_key(k) implies #[trigger] top_entries(r)[k]
        == top_entries(d)[k] by {
        assert(top_entries(r).remove(key)[k] == top_entries(r)[k]);
        assert(top_entries(d).remove(key)[k] == top_entries(d)[k]);
    }
}

/// Setting the same entry twice gives what setting it once gives.
pub proof fn upsert_is_idempotent(
    d: Value,
    key: Seq<char>,
    name: Seq<char>,
    entry: Value,
    once: Value,
    twice: Value,
)
    requires
        is_upsert_of(d, key, name, entry, once),
        is_upsert_of(once, key, name, entry, twice),
    ensures
        is_upsert_of(d, key, name, entry, twice),
        split_view(twice, key) == split_view(once, key),
{
    assert(split_view(once, key).1.insert(name, entry) =~= split_view(once, key).1);
}

/// Removing a name that the collection does not hold hands the document
/// back unchanged.
pub proof fn removing_absent_name_is_no_op(d: Value, key: Seq<char>, name: Seq<char>, r: Value)
    requires
        !collection_entries(d, key).contains_key(name),
        is_removal_of(d, key, name, r),
    ensures
        r == d,
{
}

/// Setting an entry twice under one name keeps only the second value: the
/// result is that of setting the second value alone.
pub proof fn last_upsert_wins(
    d: Value,
    key: Seq<char>,
    name: Seq<char>,
    first: Value,
    second: Value,
    once: Value,
    twice: Value,
)
    requires
        is_upsert_of(d, key, name, first, once),
        is_upsert_of(once, key, name, second, twice),
    ensures
        is_upsert_of(d, key, name, second, twice),
{
    assert(split_view(d, key).1.insert(name, first).insert(name, second) =~= split_view(
        d,
        key,
    ).1.insert(name, second));
}

/// Entries under different names can be set in either order with the same
/// outcome.
pub proof fn upserts_of_different_names_commute(
    d: Value,
    key: Seq<char>,
    n1: Seq<char>,
    e1: Value,
    n2: Seq<char>,
    e2: Value,
    a1: Value,
    a2: Value,
    b1: Value,
    b2: Value,
)
    requires
        n1 != n2,
        is_upsert_of(d, key, n1, e1, a1),
        is_upsert_of(a1, key, n2, e2, a2),
        is_upsert_of(d, key, n2, e2, b1),
        is_upsert_of(b1, key, n1, e1, b2),
    ensures
        split_view(a2, key) == split_view(b2, key),
{
    assert(split_view(d, key).1.insert(n1, e1).insert(n2, e2) =~= split_view(d, key).1.insert(
        n2,
        e2,
    ).insert(n1, e1));
}

/// Removing an entry that was just added to an object collection without it
/// gives back the document's other entries and its collection as they were.
pub proof fn remove_undoes_upsert(
    d: Value,
    key: Seq<char>,
    name: Seq<char>,
    entry: Value,
    added: Value,
    removed: Value,
)
    requires
        collection_object(d, key) is Some,
        !collection_entries(d, key).contains_key(name),
        is_upsert_of(d, key, name, entry, added),
        is_removal_of(added, key, name, removed),
    ensures
        object_of(removed) is Some,
        collection_object(removed, key) is Some,
        split_view(removed, key) == split_view(d, key),
{
    assert(collection_entries(added, key).contains_key(name));
    assert(split_view(d, key).1.insert(name, entry).remove(name) =~= split_view(d, key).1);
}

} // verus!
