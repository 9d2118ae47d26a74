//! The states of a submission, and what moves it from one to the next.

use crate::error::{Error, ErrorKind};
use crate::move_store::Mutation;
use crate::transaction::{
    HashValue, SignedTransaction, SupraTransaction, Transaction, TransactionOutput,
};
use vstd::prelude::*;

verus! {

/// The leading words of the message that reports a rejected transaction;
/// the engine's status code follows them.
pub const VALIDATION_FAILED: &'static str = "Transaction validation failed. Reason: ";

/// The message of the failure when the engine answers a block of one
/// transaction with any other number of outputs.
pub const NOT_ONE_OUTPUT: &'static str = "the engine did not return one output for one transaction";

/// Where a submitted transaction stands.
#[derive(Clone, Copy, Debug, PartialEq, Eq, Structural)]
pub enum PipelineState {
    /// Read from the wire; nothing has been asked of the engine.
    Received,
    /// A worker is validating the transaction.
    Validating,
    /// The engine refused the transaction. Nothing was executed and no
    /// state changed.
    Rejected,
    /// The transaction is valid and the block executor has it.
    Validated,
    /// The engine has produced the write set and the store is applying it.
    Executing,
    /// The worker, the engine or the commit failed.
    Failed,
    /// The write set is in the store.
    Committed,
}

/// One submission on its way through the pipeline.
#[derive(Debug)]
pub struct Pipeline {
    pub state: PipelineState,
    pub txn: SignedTransaction,
    pub hash: HashValue,
}

/// What happened outside since the last step of a submission.
#[derive(Debug)]
pub enum PipelineEvent {
    /// The request was accepted.
    Start,
    /// The engine validated the transaction: `None` where it is valid, else
    /// the status code of the rejection.
    Validation(Option<String>),
    /// The block executor ran the block of this one transaction.
    Execution(Result<Vec<TransactionOutput>, Error>),
    /// The store applied the batch as a whole, or not at all.
    Commit(Result<(), String>),
    /// The worker that ran the offloaded step crashed or was lost.
    TaskFailure(String),
}

/// What the caller of the pipeline is to do next.
#[derive(Debug)]
pub enum PipelineAction<'a, V> {
    /// Validate the transaction on a worker, with the execution context in
    /// this slot of the pool.
    Validate { txn: SignedTransaction, vm: &'a V },
    /// Run this block, of the one transaction, on the block executor.
    Execute(Vec<Transaction>),
    /// Apply this batch to the store, atomically.
    Commit(Vec<Mutation>),
    /// Answer the request: the transaction's hash, or the error.
    Respond(Result<HashValue, Error>),
    /// Nothing: the submission had ended before.
    Nothing,
}

/// The block of the one transaction.
pub open spec fn single_block(block: Seq<Transaction>, txn: Seq<u8>) -> bool {
    block.len() == 1 && (block[0] matches Transaction::UserTransaction(t) && t@ == txn)
}

impl Pipeline {
    /// Takes a request into the pipeline, given what reading it from the
    /// wire gave: the transaction and its content hash, or the message of
    /// the failure. A request that could not be read never enters.
    pub fn receive(decoded: Result<(SupraTransaction, HashValue), String>) -> (r: Result<
        Pipeline,
        Error,
    >)
        ensures
            match decoded {
                Ok((SupraTransaction::Move(txn), hash)) => {
                    &&& r matches Ok(pipeline)
                    &&& pipeline.state is Received
                    &&& pipeline.txn == txn
                    &&& pipeline.hash == hash
                },
                Err(message) => r matches Err(e) && e@ == (ErrorKind::BadRequest, message@),
            },
    {
        match decoded {
            Ok((SupraTransaction::Move(txn), hash)) => Ok(
                Pipeline { state: PipelineState::Received, txn, hash },
            ),
            Err(message) => Err(Error::BadRequest(message)),
        }
    }
}

} // verus!
