//! What holds of the store across calls, stated over the entries that the
//! operations' contracts speak of.

use vstd::prelude::*;
use crate::model::{is_key_order, lists_keys, text_lookup};
use crate::text::{lemma_text_round_trip, raw_of, text_of};

verus! {

/// One change to a bucket, on raw keys and values.
pub enum Edit {
    Put { key: Seq<u8>, value: Seq<u8> },
    Delete { key: Seq<u8> },
}

/// The entries after applying `edits`, in order, to `entries`.
pub open spec fn apply_edits(entries: Map<Seq<u8>, Seq<u8>>, edits: Seq<Edit>) -> Map<Seq<u8>, Seq<u8>>
    decreases edits.len(),
{
    if edits.len() == 0 {
        entries
    } else {
        let before = apply_edits(entries, edits.drop_last());
        match edits.last() {
            Edit::Put { key, value } => before.insert(key, value),
            Edit::Delete { key } => before.remove(key),
        }
    }
}

/// The edit at `i` sets `k`, and no later edit removes it.
pub open spec fn survives(edits: Seq<Edit>, i: int, k: Seq<u8>) -> bool {
    &&& 0 <= i < edits.len()
    &&& edits[i] is Put
    &&& edits[i]->Put_key == k
    &&& forall|j: int| i < j < edits.len() ==> !(edits[j] is Delete && edits[j]->Delete_key == k)
}

/// The keys that some edit of `edits` set and no later edit removed.
pub open spec fn live_keys(edits: Seq<Edit>) -> Set<Seq<u8>> {
    Set::new(|k: Seq<u8>| exists|i: int| #[trigger] survives(edits, i, k))
}

/// Text written under a key reads back unchanged.
pub proof fn lemma_set_then_get(entries: Map<Seq<u8>, Seq<u8>>, key: Seq<char>, value: Seq<char>)
    ensures
        text_lookup(entries.insert(raw_of(key), raw_of(value)), key) == Some(value),
{
    lemma_text_round_trip(value);
}

/// A key that was never written, or that was removed, reads as absent.
pub proof fn lemma_unwritten_or_removed_reads_none(entries: Map<Seq<u8>, Seq<u8>>, key: Seq<char>)
    ensures
        !entries.contains_key(raw_of(key)) ==> text_lookup(entries, key) is None,
        text_lookup(entries.remove(raw_of(key)), key) is None,
{
}

/// `contains` answers true exactly when `get` finds a value.
pub proof fn lemma_contains_agrees_with_get(entries: Map<Seq<u8>, Seq<u8>>, key: Seq<char>)
    ensures
        entries.contains_key(raw_of(key)) <==> text_lookup(entries, key) is Some,
{
}

/// Of two writes to one key the second wins, and the overwrite leaves the
/// number of entries as it was.
pub proof fn lemma_last_write_wins(
    entries: Map<Seq<u8>, Seq<u8>>,
    key: Seq<char>,
    first: Seq<char>,
    second: Seq<char>,
)
    requires
        entries.dom().finite(),
    ensures
        ({
            let once = entries.insert(raw_of(key), raw_of(first));
            let twice = once.insert(raw_of(key), raw_of(second));
            &&& text_lookup(twice, key) == Some(second)
            &&& twice.dom().len() == once.dom().len()
        }),
{
    let once = entries.insert(raw_of(key), raw_of(first));
    let twice = once.insert(raw_of(key), raw_of(second));
    lemma_set_then_get(once, key, second);
    assert(twice.dom() =~= once.dom());
}

/// No edit of `edits` removes `k`.
pub open spec fn never_deleted(edits: Seq<Edit>, k: Seq<u8>) -> bool {
    forall|j: int| 0 <= j < edits.len() ==> !(#[trigger] edits[j] is Delete && edits[j]->Delete_key == k)
}

/// The keys with an entry after `edits` are applied to `entries`: those that
/// some edit set and no later edit removed, and those that were there before
/// and that no edit removed.
pub open spec fn kept_keys(entries: Map<Seq<u8>, Seq<u8>>, edits: Seq<Edit>) -> Set<Seq<u8>> {
    live_keys(edits) + entries.dom().filter(|k: Seq<u8>| never_deleted(edits, k))
}

/// Whatever the bucket held before, after a run of sets and removes the keys
/// with an entry are those of `kept_keys`, so the size counts exactly those.
pub proof fn lemma_size_counts_kept_keys(entries: Map<Seq<u8>, Seq<u8>>, edits: Seq<Edit>)
    requires
        entries.dom().finite(),
    ensures
        apply_edits(entries, edits).dom() == kept_keys(entries, edits),
        apply_edits(entries, edits).dom().finite(),
        apply_edits(entries, edits).dom().len() == kept_keys(entries, edits).len(),
    decreases edits.len(),
{
    let m = apply_edits(entries, edits);
    if edits.len() == 0 {
        assert(live_keys(edits) =~= Set::empty());
        assert(m.dom() =~= kept_keys(entries, edits));
    } else {
        let prefix = edits.drop_last();
        let n = edits.len() - 1;
        lemma_size_counts_kept_keys(entries, prefix);
        assert forall|k: Seq<u8>| #[trigger] kept_keys(entries, edits).contains(k) <==> m.dom().contains(k) by {
            let deletes_k = edits[n] is Delete && edits[n]->Delete_key == k;
            if live_keys(prefix).contains(k) {
                let i = choose|i: int| #[trigger] survives(prefix, i, k);
                assert(edits[i] == prefix[i]);
                if !deletes_k {
                    assert forall|j: int| i < j < edits.len()
                        implies !(edits[j] is Delete && edits[j]->Delete_key == k) by {
                        if j < n {
                            assert(edits[j] == prefix[j]);
                        }
                    }
                    assert(survives(edits, i, k));
                }
            }
            if live_keys(edits).contains(k) {
                let i = choose|i: int| #[trigger] survives(edits, i, k);
                if i < n {
                    assert(prefix[i] == edits[i]);
                    assert forall|j: int| i < j < prefix.len()
                        implies !(prefix[j] is Delete && prefix[j]->Delete_key == k) by {
                        assert(edits[j] == prefix[j]);
                    }
                    assert(survives(prefix, i, k));
                }
            }
            if edits[n] is Put && edits[n]->Put_key == k {
                assert(survives(edits, n, k));
            }
            if never_deleted(prefix, k) && !deletes_k {
                assert forall|j: int| 0 <= j < edits.len()
                    implies !(#[trigger] edits[j] is Delete && edits[j]->Delete_key == k) by {
                    if j < n {
                        assert(edits[j] == prefix[j]);
                    }
                }
            }
            if never_deleted(edits, k) {
                assert(!deletes_k);
                assert forall|j: int| 0 <= j < prefix.len()
                    implies !(#[trigger] prefix[j] is Delete && prefix[j]->Delete_key == k) by {
                    assert(edits[j] == prefix[j]);
                }
            }
        }
        assert(m.dom() =~= kept_keys(entries, edits));
    }
}

/// Starting from an empty bucket, the keys with an entry are those that were
/// set and not removed afterwards, so the size counts exactly those.
pub proof fn lemma_size_counts_live_keys(edits: Seq<Edit>)
    ensures
        apply_edits(Map::empty(), edits).dom() == live_keys(edits),
        apply_edits(Map::empty(), edits).dom().len() == live_keys(edits).len(),
{
    let empty = Map::<Seq<u8>, Seq<u8>>::empty();
    lemma_size_counts_kept_keys(empty, edits);
    assert(kept_keys(empty, edits) =~= live_keys(edits));
}

/// After a clear the size is zero and a listing of the keys is empty.
pub proof fn lemma_cleared_is_empty(entries: Map<Seq<u8>, Seq<u8>>, listed: Seq<Seq<char>>)
    requires
        entries.dom() == Set::<Seq<u8>>::empty(),
    ensures
        entries.dom().len() == 0,
        lists_keys(listed, entries) ==> listed.len() == 0,
{
    if lists_keys(listed, entries) {
        let order = choose|order: Seq<Seq<u8>>|
            #[trigger] is_key_order(order, entries) && listed == order.map_values(|k: Seq<u8>| text_of(k));
        if order.len() > 0 {
            assert(order.to_set().contains(order[0]));
        }
    }
}

/// Removing a key that has no entry changes nothing, the size included; with
/// the contract of `remove`, this holds whether the engine reports success or
/// an error.
pub proof fn lemma_remove_absent_is_noop(entries: Map<Seq<u8>, Seq<u8>>, key: Seq<char>)
    requires
        !entries.contains_key(raw_of(key)),
    ensures
        entries.remove(raw_of(key)) == entries,
{
    assert(entries.remove(raw_of(key)) =~= entries);
}

} // verus!
