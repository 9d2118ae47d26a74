//! The encoded state store as a mathematical map, and what follows for
//! reads after commits.
//!
//! The store itself lives outside this library. It promises point reads
//! and atomic batches: a batch is applied mutation by mutation, in order,
//! and either all of it or none. This module states that promise over a
//! map from key bytes to value bytes and proves what the committer and the
//! state view make of it.

use crate::codec::lemma_decode_encoded;
use crate::error::ErrorKind;
use crate::move_store::{read_value, stageable, staged, staged_entry};
use crate::write_set::{keys_unique, EntryView};
use vstd::prelude::*;

verus! {

/// What the store holds: the value bytes under each key that is present.
pub type StoreState = Map<Seq<u8>, Seq<u8>>;

/// What a point read of `key` returns.
pub open spec fn store_get(state: StoreState, key: Seq<u8>) -> Option<Seq<u8>> {
    if state.dom().contains(key) {
        Some(state[key])
    } else {
        None
    }
}

/// The store after one mutation: the key set to the value, or removed.
pub open spec fn apply_mutation(state: StoreState, mutation: EntryView) -> StoreState {
    match mutation.1 {
        Some(value) => state.insert(mutation.0, value),
        None => state.remove(mutation.0),
    }
}

/// The store after the whole batch, applied in order.
pub open spec fn apply_batch(state: StoreState, batch: Seq<EntryView>) -> StoreState
    decreases batch.len(),
{
    if batch.len() == 0 {
        state
    } else {
        apply_mutation(apply_batch(state, batch.drop_last()), batch.last())
    }
}

/// What the last mutation of `key` in the batch does, if the batch names
/// the key at all.
pub open spec fn last_write(batch: Seq<EntryView>, key: Seq<u8>) -> Option<Option<Seq<u8>>>
    decreases batch.len(),
{
    if batch.len() == 0 {
        None
    } else if batch.last().0 == key {
        Some(batch.last().1)
    } else {
        last_write(batch.drop_last(), key)
    }
}

/// Whether the entries name `key`.
pub open spec fn names_key(entries: Seq<EntryView>, key: Seq<u8>) -> bool {
    exists|i: int| 0 <= i < entries.len() && (#[trigger] entries[i]).0 == key
}

/// The store after committing a write set: the staged batch applied as a
/// whole, or, where the write set cannot be staged, the store as it was.
pub open spec fn committed(state: StoreState, write_set: Seq<EntryView>) -> StoreState {
    if stageable(write_set) {
        apply_batch(state, staged(write_set))
    } else {
        state
    }
}

/// The store after a bootstrap with the genesis write set `genesis`, the
/// chain record being kept under `chain_key`: the store as it was where
/// the key is present, whatever it holds, and else the store after the
/// commit of genesis.
pub open spec fn bootstrapped(state: StoreState, chain_key: Seq<u8>, genesis: Seq<EntryView>)
    -> StoreState {
    if store_get(state, chain_key) is Some {
        state
    } else {
        committed(state, genesis)
    }
}

/// After a batch, a key reads as its last mutation in the batch left it,
/// and a key that the batch does not name reads as before.
pub proof fn lemma_apply_batch_get(state: StoreState, batch: Seq<EntryView>, key: Seq<u8>)
    ensures
        store_get(apply_batch(state, batch), key) == match last_write(batch, key) {
            Some(write) => write,
            None => store_get(state, key),
        },
    decreases batch.len(),
{
    if batch.len() > 0 {
        lemma_apply_batch_get(state, batch.drop_last(), key);
    }
}

/// Where no key occurs twice, the last mutation of a named key is its only
/// one.
pub proof fn lemma_last_write_of_unique(batch: Seq<EntryView>, i: int)
    requires
        keys_unique(batch),
        0 <= i < batch.len(),
    ensures
        last_write(batch, batch[i].0) == Some(batch[i].1),
    decreases batch.len(),
{
    if i < batch.len() - 1 {
        let rest = batch.drop_last();
        assert(keys_unique(rest));
        lemma_last_write_of_unique(rest, i);
    }
}

/// A batch that does not name a key has no mutation of it.
pub proof fn lemma_last_write_of_unnamed(batch: Seq<EntryView>, key: Seq<u8>)
    requires
        !names_key(batch, key),
    ensures
        last_write(batch, key) is None,
    decreases batch.len(),
{
    if batch.len() > 0 {
        let rest = batch.drop_last();
        assert(!names_key(rest, key));
        lemma_last_write_of_unnamed(rest, key);
    }
}

/// Read your writes, and only yours: after a write set is committed, a
/// read of each key that it names returns what the write set gave the key,
/// the value set or nothing after a deletion, and every other key is in
/// the store as it was before.
pub proof fn lemma_commit_then_read(state: StoreState, write_set: Seq<EntryView>)
    requires
        keys_unique(write_set),
        stageable(write_set),
    ensures
        forall|i: int|
            0 <= i < write_set.len() ==> read_value(
                store_get(committed(state, write_set), (#[trigger] write_set[i]).0),
            ) == Ok::<_, ErrorKind>(write_set[i].1),
        forall|key: Seq<u8>|
            !names_key(write_set, key) ==> #[trigger] store_get(committed(state, write_set), key)
                == store_get(state, key),
{
    let batch = staged(write_set);
    assert forall|i: int| 0 <= i < write_set.len() implies read_value(
        store_get(committed(state, write_set), (#[trigger] write_set[i]).0),
    ) == Ok::<_, ErrorKind>(write_set[i].1) by {
        let key = write_set[i].0;
        lemma_last_write_of_unique(batch, i);
        lemma_apply_batch_get(state, batch, key);
        if let Some(value) = write_set[i].1 {
            lemma_decode_encoded(value);
        }
    }
    assert forall|key: Seq<u8>| !names_key(write_set, key) implies #[trigger] store_get(
        committed(state, write_set),
        key,
    ) == store_get(state, key) by {
        assert(!names_key(batch, key));
        lemma_last_write_of_unnamed(batch, key);
        lemma_apply_batch_get(state, batch, key);
    }
}

/// A commit is all or nothing: a write set that cannot be staged leaves
/// every key as it was, and one that can be staged is applied whole.
pub proof fn lemma_commit_all_or_nothing(state: StoreState, write_set: Seq<EntryView>)
    ensures
        !stageable(write_set) ==> forall|key: Seq<u8>| #[trigger]
            store_get(committed(state, write_set), key) == store_get(state, key),
        stageable(write_set) ==> committed(state, write_set) == apply_batch(
            state,
            staged(write_set),
        ),
{
}

/// Applying a batch a second time changes nothing.
pub proof fn lemma_apply_batch_idempotent(state: StoreState, batch: Seq<EntryView>)
    ensures
        apply_batch(apply_batch(state, batch), batch) == apply_batch(state, batch),
{
    let once = apply_batch(state, batch);
    let twice = apply_batch(once, batch);
    assert forall|key: Seq<u8>| store_get(twice, key) == store_get(once, key) by {
        lemma_apply_batch_get(state, batch, key);
        lemma_apply_batch_get(once, batch, key);
    }
    assert forall|key: Seq<u8>| twice.dom().contains(key) == once.dom().contains(key) by {
        assert(store_get(twice, key) == store_get(once, key));
    }
    assert forall|key: Seq<u8>| twice.dom().contains(key) implies twice[key] == once[key] by {
        assert(store_get(twice, key) == store_get(once, key));
    }
}

/// Committing the same write set a second time changes nothing.
pub proof fn lemma_commit_idempotent(state: StoreState, write_set: Seq<EntryView>)
    ensures
        committed(committed(state, write_set), write_set) == committed(state, write_set),
{
    if stageable(write_set) {
        lemma_apply_batch_idempotent(state, staged(write_set));
    }
}

/// Genesis is applied once. After a bootstrap whose genesis sets the chain
/// key, the key is present in the store; and a bootstrap of a store in
/// which the key is present, with whatever write set, leaves every key as
/// it is, also the keys that were committed since and the chain key
/// itself, whatever a later commit made of it.
pub proof fn lemma_bootstrap_once(
    state: StoreState,
    chain_key: Seq<u8>,
    genesis: Seq<EntryView>,
    i: int,
    again: Seq<EntryView>,
)
    requires
        keys_unique(genesis),
        stageable(genesis),
        0 <= i < genesis.len(),
        genesis[i].0 == chain_key,
        genesis[i].1 is Some,
    ensures
        store_get(bootstrapped(state, chain_key, genesis), chain_key) is Some,
        forall|later: StoreState|
            store_get(later, chain_key) is Some ==> #[trigger] bootstrapped(
                later,
                chain_key,
                again,
            ) == later,
        bootstrapped(bootstrapped(state, chain_key, genesis), chain_key, again) == bootstrapped(
            state,
            chain_key,
            genesis,
        ),
{
    if store_get(state, chain_key) is None {
        lemma_commit_then_read(state, genesis);
        assert(read_value(store_get(committed(state, genesis), genesis[i].0)) == Ok::<
            _,
            ErrorKind,
        >(genesis[i].1));
    }
}

} // verus!
