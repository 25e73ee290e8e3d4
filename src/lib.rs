//! A store for JSON configuration documents that keep a named collection of
//! server entries under one top-level key.

mod json;
mod laws;
mod store;

pub use json::{entries, no_entries, object_of, parsed, pretty_text};
pub use laws::{
    last_upsert_wins, remove_undoes_upsert, removing_absent_name_is_no_op, upsert_is_idempotent,
    upsert_touches_only_its_entry, upserts_of_different_names_commute,
};
pub use store::{
    add_mcp_server, collection_entries, collection_object, content_bytes, is_not_found_at,
    is_parse_error_at, is_read_of, is_removal_of, is_saved_removal, is_saved_upsert, is_upsert_of,
    read_document, read_json_file, remove_entry, remove_mcp_server, split_view, stored_split,
    top_entries, update_mcp_server, upsert_entry, write_json_file, StoreError, SERVERS_KEY,
};
