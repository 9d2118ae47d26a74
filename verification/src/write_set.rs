//! The units of ledger state and the write sets that change them.

use vstd::prelude::*;

verus! {

/// The identifier of one unit of ledger state, held as its byte encoding.
///
/// Two keys are the same key when their encodings are equal; the encoding
/// is the physical key in the store.
#[derive(Debug, PartialEq, Eq)]
pub struct StateKey {
    encoded: Vec<u8>,
}

impl View for StateKey {
    type V = Seq<u8>;

    closed spec fn view(&self) -> Seq<u8> {
        self.encoded@
    }
}

impl StateKey {
    /// The key with the given encoding.
    pub fn new(encoded: Vec<u8>) -> (key: StateKey)
        ensures
            key@ == encoded@,
    {
        StateKey { encoded }
    }

    /// The key's encoding: the bytes to look up in the store.
    pub fn encoded(&self) -> (bytes: &Vec<u8>)
        ensures
            bytes@ == self@,
    {
        &self.encoded
    }
}

/// The content of one unit of ledger state: an opaque byte blob.
#[derive(Debug, PartialEq, Eq)]
pub struct StateValue {
    bytes: Vec<u8>,
}

impl View for StateValue {
    type V = Seq<u8>;

    closed spec fn view(&self) -> Seq<u8> {
        self.bytes@
    }
}

impl StateValue {
    /// The value with the given content.
    pub fn new(bytes: Vec<u8>) -> (value: StateValue)
        ensures
            value@ == bytes@,
    {
        StateValue { bytes }
    }

    /// The value's content.
    pub fn bytes(&self) -> (bytes: &Vec<u8>)
        ensures
            bytes@ == self@,
    {
        &self.bytes
    }
}

/// The content of the value, if there is one.
pub open spec fn value_view(value: Option<StateValue>) -> Option<Seq<u8>> {
    match value {
        Some(v) => Some(v@),
        None => None,
    }
}

/// What a write set does to one key: `None` in the view is a deletion.
#[derive(Debug, PartialEq, Eq)]
pub enum WriteOp {
    /// Remove the key.
    Deletion,
    /// Set the key to a value.
    Value(StateValue),
}

impl View for WriteOp {
    type V = Option<Seq<u8>>;

    open spec fn view(&self) -> Option<Seq<u8>> {
        match self {
            WriteOp::Deletion => None,
            WriteOp::Value(value) => Some(value@),
        }
    }
}

impl WriteOp {
    /// The value that the operation sets, if it sets one.
    pub fn as_state_value(&self) -> (value: Option<&StateValue>)
        ensures
            match value {
                Some(v) => self@ == Some(v@),
                None => self@ is None,
            },
    {
        match self {
            WriteOp::Deletion => None,
            WriteOp::Value(value) => Some(value),
        }
    }
}

/// One entry of a write set, as key bytes and operation.
pub type EntryView = (Seq<u8>, Option<Seq<u8>>);

/// The views of a sequence of entries, one for one.
pub open spec fn entries_view(entries: Seq<(StateKey, WriteOp)>) -> Seq<EntryView> {
    Seq::new(entries.len(), |i: int| (entries[i].0@, entries[i].1@))
}

/// Whether no key occurs twice among the entries.
pub open spec fn keys_unique(entries: Seq<EntryView>) -> bool {
    forall|i: int, j: int|
        0 <= i < j < entries.len() ==> (#[trigger] entries[i]).0 != (#[trigger] entries[j]).0
}

/// The position of `key` among the entries, if it is there.
pub open spec fn position_of(entries: Seq<EntryView>, key: Seq<u8>) -> Option<int> {
    if exists|i: int| 0 <= i < entries.len() && (#[trigger] entries[i]).0 == key {
        Some(choose|i: int| 0 <= i < entries.len() && (#[trigger] entries[i]).0 == key)
    } else {
        None
    }
}

/// The mutations that executing transactions produced: at most one
/// operation for each key, in the order in which the keys were first named.
#[derive(Debug)]
pub struct WriteSet {
    entries: Vec<(StateKey, WriteOp)>,
}

impl View for WriteSet {
    type V = Seq<EntryView>;

    closed spec fn view(&self) -> Seq<EntryView> {
        entries_view(self.entries@)
    }
}

/// Whether two byte vectors hold the same bytes.
fn same_bytes(a: &Vec<u8>, b: &Vec<u8>) -> (same: bool)
    ensures
        same == (a@ == b@),
{
    if a.len() != b.len() {
        return false;
    }
    let mut i: usize = 0;
    while i < a.len()
        invariant
            a.len() == b.len(),
            i <= a.len(),
            forall|k: int| 0 <= k < i ==> a@[k] == b@[k],
        decreases a.len() - i,
    {
        if a[i] != b[i] {
            return false;
        }
        i += 1;
    }
    assert(a@ =~= b@);
    true
}

impl WriteSet {
    #[verifier::type_invariant]
    closed spec fn well_formed(self) -> bool {
        keys_unique(entries_view(self.entries@))
    }

    /// The empty write set.
    pub fn new() -> (write_set: WriteSet)
        ensures
            write_set@ == Seq::<EntryView>::empty(),
    {
        let write_set = WriteSet { entries: Vec::new() };
        write_set
    }

    /// The number of keys that the write set names.
    pub fn len(&self) -> (len: usize)
        ensures
            len == self@.len(),
    {
        self.entries.len()
    }

    /// The entries, in order. No key occurs twice among them.
    pub fn entries(&self) -> (entries: &Vec<(StateKey, WriteOp)>)
        ensures
            entries_view(entries@) == self@,
            keys_unique(self@),
    {
        proof {
            use_type_invariant(self);
        }
        &self.entries
    }

    /// Names `key` with the operation `op`: in place of the operation that
    /// the write set had for the key, or else as a new last entry.
    pub fn insert(&mut self, key: StateKey, op: WriteOp)
        ensures
            keys_unique(final(self)@),
            match position_of(old(self)@, key@) {
                Some(i) => final(self)@ == old(self)@.update(i, (key@, op@)),
                None => final(self)@ == old(self)@.push((key@, op@)),
            },
    {
        proof {
            use_type_invariant(&*self);
        }
        let ghost before = self@;
        let ghost entry = (key@, op@);
        let mut entries: Vec<(StateKey, WriteOp)> = Vec::new();
        core::mem::swap(&mut self.entries, &mut entries);
        let mut found: Option<usize> = None;
        let mut i: usize = 0;
        while i < entries.len()
            invariant
                i <= entries.len(),
                entries_view(entries@) == before,
                found is None ==> forall|k: int| 0 <= k < i ==> (#[trigger] before[k]).0 != key@,
                found matches Some(at) ==> at < entries.len() && before[at as int].0 == key@,
            decreases entries.len() - i,
        {
            if found.is_none() && same_bytes(entries[i].0.encoded(), key.encoded()) {
                found = Some(i);
            }
            i += 1;
        }
        match found {
            Some(at) => {
                entries.set(at, (key, op));
                assert(entries_view(entries@) =~= before.update(at as int, entry));
            },
            None => {
                entries.push((key, op));
                assert(entries_view(entries@) =~= before.push(entry));
            },
        }
        core::mem::swap(&mut self.entries, &mut entries);
    }
}

} // verus!
