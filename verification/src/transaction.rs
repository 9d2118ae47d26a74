//! Transactions as the service carries them: opaque to this library, which
//! moves them between the wire, the engine and the store.

use crate::write_set::WriteSet;
use vstd::prelude::*;

verus! {

/// The content hash that identifies a transaction: 32 bytes.
#[derive(Clone, Copy, Debug, PartialEq, Eq)]
pub struct HashValue {
    pub hash: [u8; 32],
}

impl HashValue {
    /// The hash with the given bytes.
    pub fn new(hash: [u8; 32]) -> (value: HashValue)
        ensures
            value.hash == hash,
    {
        HashValue { hash }
    }
}

/// A signed transaction in the engine's own encoding.
#[derive(Debug, PartialEq, Eq)]
pub struct SignedTransaction {
    pub payload: Vec<u8>,
}

impl View for SignedTransaction {
    type V = Seq<u8>;

    open spec fn view(&self) -> Seq<u8> {
        self.payload@
    }
}

impl Clone for SignedTransaction {
    fn clone(&self) -> (txn: SignedTransaction)
        ensures
            txn@ == self@,
    {
        SignedTransaction { payload: self.payload.clone() }
    }
}

/// The envelope in which a transaction is submitted.
#[derive(Debug, PartialEq, Eq)]
pub enum SupraTransaction {
    /// A signed transaction for the engine.
    Move(SignedTransaction),
}

/// A transaction as the block executor takes it.
#[derive(Debug, PartialEq, Eq)]
pub enum Transaction {
    /// A transaction that a user submitted.
    UserTransaction(SignedTransaction),
}

/// What the engine made of one transaction of a block.
#[derive(Debug)]
pub enum TransactionOutput {
    /// The transaction's write set, to be committed.
    Kept(WriteSet),
    /// The engine could not execute the transaction; its status says why.
    Discarded(String),
}

} // verus!
