//! The ledger state store as the execution engine and the service see it:
//! how it is opened, how a read is decoded, and how a write set becomes the
//! batch of mutations that the store applies atomically.

use crate::chain::{chain_resource_of, ChainId, ChainIdResource};
use crate::codec::{
    bcs_from_bytes, bcs_to_bytes, decode_value, encodable, lemma_decode_unique, value_encoding,
};
use crate::error::{Error, ErrorKind};
use crate::write_set::{entries_view, value_view, EntryView, StateValue, WriteSet};
use vstd::prelude::*;
use vstd::string::*;

verus! {

/// The namespace of the store that holds ledger state, and nothing else.
pub const MOVE_STATE_CF_NAME: &'static str = "cf_move_state";

/// The size in bytes of the read cache when the caller names none: 100 MiB.
pub const DEFAULT_CACHE_SIZE: usize = 104_857_600;

/// One staged change to the store: set `key` to `value`, or, where `value`
/// is `None`, delete `key`.
#[derive(Debug, PartialEq, Eq)]
pub struct Mutation {
    pub key: Vec<u8>,
    pub value: Option<Vec<u8>>,
}

impl View for Mutation {
    type V = EntryView;

    open spec fn view(&self) -> EntryView {
        (
            self.key@,
            match self.value {
                Some(bytes) => Some(bytes@),
                None => None,
            },
        )
    }
}

/// The views of a batch of mutations, one for one.
pub open spec fn batch_view(batch: Seq<Mutation>) -> Seq<EntryView> {
    Seq::new(batch.len(), |i: int| batch[i]@)
}

/// The mutation that stages one entry of a write set: the key as it is,
/// and the value, if there is one, encoded.
pub open spec fn staged_entry(entry: EntryView) -> EntryView {
    (
        entry.0,
        match entry.1 {
            Some(value) => Some(value_encoding(value)),
            None => None,
        },
    )
}

/// The batch that stages a write set: one mutation for each entry, in order.
pub open spec fn staged(entries: Seq<EntryView>) -> Seq<EntryView> {
    Seq::new(entries.len(), |i: int| staged_entry(entries[i]))
}

/// Whether every value that the entries set can be encoded.
pub open spec fn stageable(entries: Seq<EntryView>) -> bool {
    forall|i: int|
        0 <= i < entries.len() ==> ((#[trigger] entries[i]).1 matches Some(value) ==> encodable(
            value,
        ))
}

/// The bytes that the store returned, if it returned any.
pub open spec fn stored_view(stored: Option<Vec<u8>>) -> Option<Seq<u8>> {
    match stored {
        Some(bytes) => Some(bytes@),
        None => None,
    }
}

/// What a read returns for what the store holds under the key: nothing
/// where the store holds nothing, the decoded value where it holds an
/// encoding, and a decode error otherwise.
pub open spec fn read_value(stored: Option<Seq<u8>>) -> Result<Option<Seq<u8>>, ErrorKind> {
    match stored {
        None => Ok(None),
        Some(bytes) => match decode_value(bytes) {
            Some(value) => Ok(Some(value)),
            None => Err(ErrorKind::Decode),
        },
    }
}

/// The state value that a read returns, given what decoding the stored
/// bytes gave: the value decoded, or else a decode error with the codec's
/// message.
pub fn decoded_state_value(decoded: Result<Vec<u8>, String>) -> (r: Result<
    Option<StateValue>,
    Error,
>)
    ensures
        match decoded {
            Ok(value) => r matches Ok(Some(v)) && v@ == value@,
            Err(message) => r matches Err(e) && e@ == (ErrorKind::Decode, message@),
        },
{
    match decoded {
        Ok(value) => Ok(Some(StateValue::new(value))),
        Err(message) => Err(Error::Decode(message)),
    }
}

/// The bytes that stage a value, given what encoding the value gave: the
/// encoding, or else an encode error with the codec's message.
pub fn encoded_state_value(encoded: Result<Vec<u8>, String>) -> (r: Result<Vec<u8>, Error>)
    ensures
        match encoded {
            Ok(bytes) => r == Ok::<Vec<u8>, Error>(bytes),
            Err(message) => r matches Err(e) && e@ == (ErrorKind::Encode, message@),
        },
{
    match encoded {
        Ok(bytes) => Ok(bytes),
        Err(message) => Err(Error::Encode(message)),
    }
}

/// How much storage the ledger state uses.
#[derive(Clone, Copy, Debug, PartialEq, Eq, Structural)]
pub enum StateStorageUsage {
    /// Items and bytes in use.
    Metered { items: usize, bytes: usize },
    /// The store does not meter its usage.
    Untracked,
}

/// The ledger state store: where it lies and how it is opened.
///
/// Opening creates the store and its namespace where they are missing and
/// reuses them where they exist.
#[derive(Debug, PartialEq, Eq)]
pub struct MoveStore {
    pub path: String,
    pub column_family: String,
    pub cache_size: usize,
    pub cache_index_and_filter_blocks: bool,
    pub create_if_missing: bool,
    pub create_missing_column_families: bool,
}

/// Whether `store` is the store at `path` with a read cache of `cache_size`
/// bytes: its state in the namespace `MOVE_STATE_CF_NAME`, index and filter
/// blocks cached, and store and namespace created where they are missing.
pub open spec fn is_store_at(store: MoveStore, path: Seq<char>, cache_size: usize) -> bool {
    &&& store.path@ == path
    &&& store.column_family@ == MOVE_STATE_CF_NAME@
    &&& store.cache_size == cache_size
    &&& store.cache_index_and_filter_blocks
    &&& store.create_if_missing
    &&& store.create_missing_column_families
}

impl Clone for MoveStore {
    fn clone(&self) -> (store: MoveStore)
        ensures
            store == *self,
    {
        MoveStore {
            path: self.path.clone(),
            column_family: self.column_family.clone(),
            cache_size: self.cache_size,
            cache_index_and_filter_blocks: self.cache_index_and_filter_blocks,
            create_if_missing: self.create_if_missing,
            create_missing_column_families: self.create_missing_column_families,
        }
    }
}

impl MoveStore {
    /// The store at `path`, with a read cache of `cache_size` bytes, or of
    /// `DEFAULT_CACHE_SIZE` where none is given.
    pub fn new(path: &str, cache_size: Option<usize>) -> (store: MoveStore)
        ensures
            is_store_at(
                store,
                path@,
                match cache_size {
                    Some(size) => size,
                    None => DEFAULT_CACHE_SIZE,
                },
            ),
    {
        let size = match cache_size {
            Some(size) => size,
            None => DEFAULT_CACHE_SIZE,
        };
        MoveStore {
            path: String::from_str(path),
            column_family: String::from_str(MOVE_STATE_CF_NAME),
            cache_size: size,
            cache_index_and_filter_blocks: true,
            create_if_missing: true,
            create_missing_column_families: true,
        }
    }

    /// The result of reading a state value, given what the store returned
    /// for the key's encoding: the bytes under it, nothing, or the message
    /// of its failure.
    pub fn get_state_value(&self, fetched: Result<Option<Vec<u8>>, String>) -> (r: Result<
        Option<StateValue>,
        Error,
    >)
        ensures
            match fetched {
                Ok(stored) => match read_value(stored_view(stored)) {
                    Ok(value) => r matches Ok(v) && value_view(v) == value,
                    Err(kind) => r matches Err(e) && e@.0 == kind,
                },
                Err(message) => r matches Err(e) && e@ == (ErrorKind::StorageIo, message@),
            },
    {
        match fetched {
            Err(message) => Err(Error::StorageIo(message)),
            Ok(None) => Ok(None),
            Ok(Some(bytes)) => {
                let decoded = bcs_from_bytes(&bytes);
                proof {
                    if decoded is Ok {
                        lemma_decode_unique(bytes@, decoded->Ok_0@);
                    }
                }
                decoded_state_value(decoded)
            },
        }
    }

    /// The storage in use: this store does not meter it.
    pub fn get_usage(&self) -> (usage: StateStorageUsage)
        ensures
            usage == StateStorageUsage::Untracked,
    {
        StateStorageUsage::Untracked
    }

    /// The chain's configuration record, given the result of reading its
    /// key. There is none, and no error, where the key holds nothing,
    /// where the read failed, or where the value is not a record.
    pub fn chain_resource(&self, read: Result<Option<StateValue>, Error>) -> (resource: Option<
        ChainIdResource,
    >)
        ensures
            resource == match read {
                Ok(Some(value)) => chain_resource_of(value@),
                _ => None,
            },
    {
        match read {
            Ok(Some(value)) => {
                let bytes = value.bytes();
                if bytes.len() == 1 {
                    Some(ChainIdResource { chain_id: ChainId::new(bytes[0]) })
                } else {
                    None
                }
            },
            _ => None,
        }
    }

    /// Stages a write set: appends to `batch` one mutation for each entry,
    /// in order, a deletion as a deletion and a value encoded.
    ///
    /// Staging is all or nothing. Where a value cannot be encoded, the
    /// batch stays as it was and the error says so.
    pub fn add_write_set(&self, batch: &mut Vec<Mutation>, write_set: &WriteSet) -> (r: Result<
        (),
        Error,
    >)
        ensures
            r is Ok <==> stageable(write_set@),
            r is Ok ==> batch_view(final(batch)@) == batch_view(old(batch)@) + staged(write_set@),
            r matches Err(e) ==> e@.0 == ErrorKind::Encode && *final(batch) == *old(batch),
    {
        let entries = write_set.entries();
        let mut pending: Vec<Mutation> = Vec::new();
        let mut i: usize = 0;
        while i < entries.len()
            invariant
                i <= entries.len(),
                entries_view(entries@) == write_set@,
                pending@.len() == i,
                stageable(write_set@.take(i as int)),
                batch_view(pending@) == staged(write_set@.take(i as int)),
            decreases entries.len() - i,
        {
            let ghost entry = write_set@[i as int];
            let key = entries[i].0.encoded().clone();
            let value = match entries[i].1.as_state_value() {
                None => None,
                Some(value) => match encoded_state_value(bcs_to_bytes(value.bytes())) {
                    Ok(bytes) => Some(bytes),
                    Err(e) => return Err(e),
                },
            };
            pending.push(Mutation { key, value });
            assert(staged(write_set@.take(i + 1)) =~= staged(write_set@.take(i as int)).push(
                staged_entry(entry),
            ));
            i += 1;
        }
        assert(write_set@.take(i as int) =~= write_set@);
        batch.append(&mut pending);
        Ok(())
    }
}

} // verus!
