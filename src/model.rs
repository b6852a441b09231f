//! The store as text: what a key reads as, and what a listing of keys holds.

use vstd::prelude::*;
use crate::text::{raw_of, text_of};

verus! {

/// What reading `key` from `entries` gives: the stored value as text, or
/// `None` when the key has no entry.
pub open spec fn text_lookup(entries: Map<Seq<u8>, Seq<u8>>, key: Seq<char>) -> Option<Seq<char>> {
    if entries.contains_key(raw_of(key)) {
        Some(text_of(entries[raw_of(key)]))
    } else {
        None
    }
}

/// `order` lists each key of `entries` exactly once.
pub open spec fn is_key_order(order: Seq<Seq<u8>>, entries: Map<Seq<u8>, Seq<u8>>) -> bool {
    order.no_duplicates() && order.to_set() == entries.dom()
}

/// Every item that the engine handed back is a key, none an error.
pub open spec fn all_ok(items: Seq<Result<Vec<u8>, kv::Error>>) -> bool {
    forall|i: int| 0 <= i < items.len() ==> #[trigger] items[i] is Ok
}

/// The keys among `items`, in order.
pub open spec fn ok_keys(items: Seq<Result<Vec<u8>, kv::Error>>) -> Seq<Seq<u8>> {
    items.map_values(|item: Result<Vec<u8>, kv::Error>| item->Ok_0@)
}

/// `listed` is the keys of `entries` as text, each once, in some order.
pub open spec fn lists_keys(listed: Seq<Seq<char>>, entries: Map<Seq<u8>, Seq<u8>>) -> bool {
    exists|order: Seq<Seq<u8>>|
        #[trigger] is_key_order(order, entries) && listed == order.map_values(|k: Seq<u8>| text_of(k))
}

} // verus!
