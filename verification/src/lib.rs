//! Ledger state store and transaction submission pipeline for a
//! deterministic execution engine.
//!
//! The store on disk, the engine and the network are the caller's. This
//! library decides: how a write set becomes an atomic batch and what a read
//! returns ([`move_store`], [`codec`]), what a store holds after a commit
//! ([`encoded_store`]), how a store is bootstrapped ([`genesis`]), which
//! execution context a request draws ([`state`]), and how a submitted
//! transaction moves from received to committed or rejected
//! ([`submit_txn`]). Where work is the caller's, the library says what is
//! to be done and is told what came of it.

use crate::chain::ChainIdResource;
use crate::error::{Error, ErrorKind, UNEXPECTED_EVENT};
use crate::move_store::{batch_view, stageable, staged, Mutation};
use crate::pipeline::{
    single_block, Pipeline, PipelineAction, PipelineEvent, PipelineState, NOT_ONE_OUTPUT,
    VALIDATION_FAILED,
};
use crate::state::RpcState;
use crate::transaction::{HashValue, SignedTransaction, Transaction, TransactionOutput};
use vstd::prelude::*;
use vstd::string::*;

pub mod chain;
pub mod codec;
pub mod encoded_store;
pub mod error;
pub mod genesis;
pub mod move_executor;
pub mod move_store;
pub mod pipeline;
pub mod state;
pub mod transaction;
pub mod write_set;

verus! {

/// The message of the error when the chain's configuration record is not
/// in the store.
pub const MISSING_CHAIN_RESOURCE: &'static str = "Missing chain resource.";

/// Answers the chain-id query, given the chain's configuration record as
/// the store has it: the identifier byte, or an internal error where the
/// store has no record.
pub fn chain_id(resource: Option<ChainIdResource>) -> (r: Result<u8, Error>)
    ensures
        match resource {
            Some(record) => r == Ok::<u8, Error>(record.chain_id.id),
            None => r matches Err(e) && e@ == (ErrorKind::Other, MISSING_CHAIN_RESOURCE@),
        },
{
    match resource {
        Some(record) => Ok(record.chain_id().id()),
        None => Err(Error::Other(String::from_str(MISSING_CHAIN_RESOURCE))),
    }
}

/// Takes the submission of one transaction one step further, given what
/// happened outside: the state it is in then, and what the caller is to do.
///
/// The steps are strictly in order: a transaction is validated with an
/// execution context drawn from the pool, executed only after the engine
/// found it valid, and its write set committed only after the engine
/// produced it. A rejection, a failure, or an event out of order ends the
/// submission; once it has ended, nothing moves it.
pub fn submit_txn<'a, V>(state: &'a RpcState<V>, pipeline: Pipeline, event: PipelineEvent) -> (next:
    (Pipeline, PipelineAction<'a, V>))
    requires
        state.slots().len() > 0,
    ensures
        next.0.txn == pipeline.txn,
        next.0.hash == pipeline.hash,
        next.1 is Execute ==> pipeline.state is Validating && event == PipelineEvent::Validation(
            None,
        ),
        next.1 is Commit ==> pipeline.state is Validated && event is Execution,
        next.0.state is Committed ==> pipeline.state is Committed || (pipeline.state is Executing
            && event matches PipelineEvent::Commit(Ok(_))),
        match (pipeline.state, event) {
            (PipelineState::Received, PipelineEvent::Start) => {
                &&& next.0.state is Validating
                &&& next.1 matches PipelineAction::Validate { txn, vm }
                &&& txn@ == pipeline.txn@
                &&& state.slots().contains(*vm)
            },
            (PipelineState::Validating, PipelineEvent::Validation(None)) => {
                &&& next.0.state is Validated
                &&& next.1 matches PipelineAction::Execute(block)
                &&& single_block(block@, pipeline.txn@)
            },
            (PipelineState::Validating, PipelineEvent::Validation(Some(code))) => {
                &&& next.0.state is Rejected
                &&& next.1 matches PipelineAction::Respond(Err(e))
                &&& e@ == (ErrorKind::ValidationRejected, VALIDATION_FAILED@ + code@)
            },
            (PipelineState::Validated, PipelineEvent::Execution(Ok(outputs))) => {
                if outputs@.len() == 1 {
                    match outputs@[0] {
                        TransactionOutput::Kept(write_set) => {
                            if stageable(write_set@) {
                                &&& next.0.state is Executing
                                &&& next.1 matches PipelineAction::Commit(batch)
                                &&& batch_view(batch@) == staged(write_set@)
                            } else {
                                &&& next.0.state is Failed
                                &&& next.1 matches PipelineAction::Respond(Err(e))
                                &&& e@.0 == ErrorKind::Encode
                            }
                        },
                        TransactionOutput::Discarded(status) => {
                            &&& next.0.state is Failed
                            &&& next.1 matches PipelineAction::Respond(Err(e))
                            &&& e@ == (ErrorKind::ExecutionFailure, status@)
                        },
                    }
                } else {
                    &&& next.0.state is Failed
                    &&& next.1 matches PipelineAction::Respond(Err(e))
                    &&& e@ == (ErrorKind::ExecutionFailure, NOT_ONE_OUTPUT@)
                }
            },
            (PipelineState::Validated, PipelineEvent::Execution(Err(error))) => {
                &&& next.0.state is Failed
                &&& next.1 == PipelineAction::<V>::Respond(Err(error))
            },
            (PipelineState::Validating, PipelineEvent::TaskFailure(message))
            | (PipelineState::Validated, PipelineEvent::TaskFailure(message)) => {
                &&& next.0.state is Failed
                &&& next.1 matches PipelineAction::Respond(Err(e))
                &&& e@ == (ErrorKind::TaskFailure, message@)
            },
            (PipelineState::Executing, PipelineEvent::Commit(Ok(_))) => {
                &&& next.0.state is Committed
                &&& next.1 == PipelineAction::<V>::Respond(Ok(pipeline.hash))
            },
            (PipelineState::Executing, PipelineEvent::Commit(Err(message))) => {
                &&& next.0.state is Failed
                &&& next.1 matches PipelineAction::Respond(Err(e))
                &&& e@ == (ErrorKind::StorageIo, message@)
            },
            (PipelineState::Rejected, _)
            | (PipelineState::Failed, _)
            | (PipelineState::Committed, _) => {
                &&& next.0.state == pipeline.state
                &&& next.1 is Nothing
            },
            _ => {
                &&& next.0.state is Failed
                &&& next.1 matches PipelineAction::Respond(Err(e))
                &&& e@ == (ErrorKind::Other, UNEXPECTED_EVENT@)
            },
        },
{
    let Pipeline { state: at, txn, hash } = pipeline;
    match (at, event) {
        (PipelineState::Received, PipelineEvent::Start) => {
            let action = PipelineAction::Validate { txn: txn.clone(), vm: state.get_next_vm() };
            (Pipeline { state: PipelineState::Validating, txn, hash }, action)
        },
        (PipelineState::Validating, PipelineEvent::Validation(None)) => {
            let mut block: Vec<Transaction> = Vec::new();
            block.push(Transaction::UserTransaction(txn.clone()));
            (Pipeline { state: PipelineState::Validated, txn, hash }, PipelineAction::Execute(block))
        },
        (PipelineState::Validating, PipelineEvent::Validation(Some(code))) => {
            let message = String::from_str(VALIDATION_FAILED).concat(code.as_str());
            fail(PipelineState::Rejected, txn, hash, Error::ValidationRejected(message))
        },
        (PipelineState::Validated, PipelineEvent::Execution(Ok(outputs))) => {
            let mut outputs = outputs;
            if outputs.len() != 1 {
                let message = String::from_str(NOT_ONE_OUTPUT);
                return fail(PipelineState::Failed, txn, hash, Error::ExecutionFailure(message));
            }
            match outputs.pop().unwrap() {
                TransactionOutput::Kept(write_set) => {
                    let mut batch: Vec<Mutation> = Vec::new();
                    match state.get_move_store().add_write_set(&mut batch, &write_set) {
                        Ok(_) => (
                            Pipeline { state: PipelineState::Executing, txn, hash },
                            PipelineAction::Commit(batch),
                        ),
                        Err(e) => fail(PipelineState::Failed, txn, hash, e),
                    }
                },
                TransactionOutput::Discarded(status) => fail(
                    PipelineState::Failed,
                    txn,
                    hash,
                    Error::ExecutionFailure(status),
                ),
            }
        },
        (PipelineState::Validated, PipelineEvent::Execution(Err(error))) => fail(
            PipelineState::Failed,
            txn,
            hash,
            error,
        ),
        (PipelineState::Validating, PipelineEvent::TaskFailure(message))
        | (PipelineState::Validated, PipelineEvent::TaskFailure(message)) => fail(
            PipelineState::Failed,
            txn,
            hash,
            Error::TaskFailure(message),
        ),
        (PipelineState::Executing, PipelineEvent::Commit(Ok(_))) => (
            Pipeline { state: PipelineState::Committed, txn, hash },
            PipelineAction::Respond(Ok(hash)),
        ),
        (PipelineState::Executing, PipelineEvent::Commit(Err(message))) => fail(
            PipelineState::Failed,
            txn,
            hash,
            Error::StorageIo(message),
        ),
        (PipelineState::Rejected, _) | (PipelineState::Failed, _) | (PipelineState::Committed, _) => (
            Pipeline { state: at, txn, hash },
            PipelineAction::Nothing,
        ),
        _ => fail(
            PipelineState::Failed,
            txn,
            hash,
            Error::Other(String::from_str(UNEXPECTED_EVENT)),
        ),
    }
}

/// Ends a submission in `state` with the response that reports `error`.
fn fail<'a, V>(state: PipelineState, txn: SignedTransaction, hash: HashValue, error: Error) -> (next:
    (Pipeline, PipelineAction<'a, V>))
    ensures
        next.0.state == state,
        next.0.txn == txn,
        next.0.hash == hash,
        next.1 == PipelineAction::<V>::Respond(Err(error)),
{
    (Pipeline { state, txn, hash }, PipelineAction::Respond(Err(error)))
}

} // verus!
