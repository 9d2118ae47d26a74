use rpc_server::error::{Error, ErrorKind};
use rpc_server::move_store::{MoveStore, Mutation};
use rpc_server::pipeline::{
    Pipeline, PipelineAction, PipelineEvent, PipelineState, NOT_ONE_OUTPUT, VALIDATION_FAILED,
};
use rpc_server::state::RpcState;
use rpc_server::submit_txn;
use rpc_server::transaction::{
    HashValue, SignedTransaction, SupraTransaction, Transaction, TransactionOutput,
};
use rpc_server::write_set::{StateKey, StateValue, WriteOp, WriteSet};

fn pool() -> &'static RpcState<u8> {
    let store = MoveStore::new("./move_store.db", None);
    Box::leak(Box::new(RpcState::new(store, Some(3), |_: &MoveStore| 7u8)))
}

fn txn() -> SignedTransaction {
    SignedTransaction { payload: vec![1, 2, 3] }
}

fn hash() -> HashValue {
    HashValue::new([0x5a; 32])
}

fn received() -> Pipeline {
    Pipeline::receive(Ok((SupraTransaction::Move(txn()), hash()))).unwrap()
}

fn at(state: PipelineState) -> Pipeline {
    Pipeline { state, txn: txn(), hash: hash() }
}

fn one_write() -> WriteSet {
    let mut ws = WriteSet::new();
    ws.insert(StateKey::new(vec![7]), WriteOp::Value(StateValue::new(vec![8, 9])));
    ws.insert(StateKey::new(vec![6]), WriteOp::Deletion);
    ws
}

fn all_events() -> Vec<PipelineEvent> {
    vec![
        PipelineEvent::Start,
        PipelineEvent::Validation(None),
        PipelineEvent::Validation(Some("X".to_string())),
        PipelineEvent::Execution(Ok(vec![TransactionOutput::Kept(one_write())])),
        PipelineEvent::Execution(Err(Error::ExecutionFailure("e".to_string()))),
        PipelineEvent::Commit(Ok(())),
        PipelineEvent::Commit(Err("c".to_string())),
        PipelineEvent::TaskFailure("t".to_string()),
    ]
}

#[test]
fn receive_takes_a_decoded_request_in() {
    let p = received();
    assert_eq!(p.state, PipelineState::Received);
    assert_eq!(p.txn, txn());
    assert_eq!(p.hash, hash());
}

#[test]
fn receive_refuses_a_malformed_request() {
    let err = Pipeline::receive(Err("expected value at line 1".to_string())).unwrap_err();
    assert_eq!(err, Error::BadRequest("expected value at line 1".to_string()));
    assert_eq!(err.kind(), ErrorKind::BadRequest);
}

#[test]
fn start_asks_for_validation() {
    let (p, action) = submit_txn(pool(), received(), PipelineEvent::Start);
    assert_eq!(p.state, PipelineState::Validating);
    assert_eq!(p.txn, txn());
    assert_eq!(p.hash, hash());
    assert!(matches!(action, PipelineAction::Validate { txn: t, vm: 7 } if t == txn()));
}

#[test]
fn a_valid_transaction_goes_to_the_executor_as_a_block_of_one() {
    let (p, action) =
        submit_txn(pool(), at(PipelineState::Validating), PipelineEvent::Validation(None));
    assert_eq!(p.state, PipelineState::Validated);
    match action {
        PipelineAction::Execute(block) => {
            assert_eq!(block, vec![Transaction::UserTransaction(txn())])
        }
        other => panic!("{:?}", other),
    }
}

#[test]
fn a_rejected_transaction_ends_with_the_reason() {
    assert_eq!(VALIDATION_FAILED, "Transaction validation failed. Reason: ");
    let (p, action) = submit_txn(
        pool(),
        at(PipelineState::Validating),
        PipelineEvent::Validation(Some("SEQUENCE_NUMBER_TOO_OLD".to_string())),
    );
    assert_eq!(p.state, PipelineState::Rejected);
    match action {
        PipelineAction::Respond(Err(e)) => assert_eq!(
            e,
            Error::ValidationRejected(
                "Transaction validation failed. Reason: SEQUENCE_NUMBER_TOO_OLD".to_string()
            )
        ),
        other => panic!("{:?}", other),
    }
}

#[test]
fn a_lost_worker_fails_the_submission() {
    for state in [PipelineState::Validating, PipelineState::Validated] {
        let (p, action) =
            submit_txn(pool(), at(state), PipelineEvent::TaskFailure("panicked".to_string()));
        assert_eq!(p.state, PipelineState::Failed);
        assert!(matches!(
            action,
            PipelineAction::Respond(Err(e)) if e == Error::TaskFailure("panicked".to_string())
        ));
    }
}

#[test]
fn the_write_set_of_the_output_is_staged_for_commit() {
    let (p, action) = submit_txn(
        pool(),
        at(PipelineState::Validated),
        PipelineEvent::Execution(Ok(vec![TransactionOutput::Kept(one_write())])),
    );
    assert_eq!(p.state, PipelineState::Executing);
    match action {
        PipelineAction::Commit(batch) => assert_eq!(
            batch,
            vec![
                Mutation { key: vec![7], value: Some(vec![2, 8, 9]) },
                Mutation { key: vec![6], value: None },
            ]
        ),
        other => panic!("{:?}", other),
    }
}

#[test]
fn an_empty_write_set_is_committed_as_an_empty_batch() {
    let (p, action) = submit_txn(
        pool(),
        at(PipelineState::Validated),
        PipelineEvent::Execution(Ok(vec![TransactionOutput::Kept(WriteSet::new())])),
    );
    assert_eq!(p.state, PipelineState::Executing);
    assert!(matches!(action, PipelineAction::Commit(batch) if batch.is_empty()));
}

#[test]
fn a_discarded_transaction_fails_with_its_status() {
    let (p, action) = submit_txn(
        pool(),
        at(PipelineState::Validated),
        PipelineEvent::Execution(Ok(vec![TransactionOutput::Discarded("OUT_OF_GAS".to_string())])),
    );
    assert_eq!(p.state, PipelineState::Failed);
    assert!(matches!(
        action,
        PipelineAction::Respond(Err(e)) if e == Error::ExecutionFailure("OUT_OF_GAS".to_string())
    ));
}

#[test]
fn any_number_of_outputs_but_one_fails() {
    let two = vec![TransactionOutput::Kept(one_write()), TransactionOutput::Kept(one_write())];
    for outputs in [vec![], two] {
        let (p, action) = submit_txn(
            pool(),
            at(PipelineState::Validated),
            PipelineEvent::Execution(Ok(outputs)),
        );
        assert_eq!(p.state, PipelineState::Failed);
        assert!(matches!(
            action,
            PipelineAction::Respond(Err(e)) if e == Error::ExecutionFailure(NOT_ONE_OUTPUT.to_string())
        ));
    }
}

#[test]
fn an_engine_failure_fails_the_submission() {
    let (p, action) = submit_txn(
        pool(),
        at(PipelineState::Validated),
        PipelineEvent::Execution(Err(Error::ExecutionFailure("bad block".to_string()))),
    );
    assert_eq!(p.state, PipelineState::Failed);
    assert!(matches!(
        action,
        PipelineAction::Respond(Err(e)) if e == Error::ExecutionFailure("bad block".to_string())
    ));
}

#[test]
fn a_write_set_that_cannot_be_staged_fails_the_submission() {
    let mut ws = WriteSet::new();
    ws.insert(StateKey::new(vec![1]), WriteOp::Value(StateValue::new(vec![0u8; 1 << 31])));
    let (p, action) = submit_txn(
        pool(),
        at(PipelineState::Validated),
        PipelineEvent::Execution(Ok(vec![TransactionOutput::Kept(ws)])),
    );
    assert_eq!(p.state, PipelineState::Failed);
    assert!(matches!(action, PipelineAction::Respond(Err(e)) if e.kind() == ErrorKind::Encode));
}

#[test]
fn a_commit_answers_with_the_hash() {
    let (p, action) =
        submit_txn(pool(), at(PipelineState::Executing), PipelineEvent::Commit(Ok(())));
    assert_eq!(p.state, PipelineState::Committed);
    match action {
        PipelineAction::Respond(Ok(h)) => {
            assert_eq!(h, hash());
            assert_eq!(h.hash.len(), 32);
        }
        other => panic!("{:?}", other),
    }
}

#[test]
fn a_failed_commit_fails_the_submission() {
    let (p, action) = submit_txn(
        pool(),
        at(PipelineState::Executing),
        PipelineEvent::Commit(Err("IO error".to_string())),
    );
    assert_eq!(p.state, PipelineState::Failed);
    assert!(matches!(
        action,
        PipelineAction::Respond(Err(e)) if e == Error::StorageIo("IO error".to_string())
    ));
}

#[test]
fn a_submission_that_has_ended_stays_as_it_is() {
    for state in [PipelineState::Rejected, PipelineState::Failed, PipelineState::Committed] {
        for event in all_events() {
            let (p, action) = submit_txn(pool(), at(state), event);
            assert_eq!(p.state, state);
            assert_eq!(p.txn, txn());
            assert_eq!(p.hash, hash());
            assert!(matches!(action, PipelineAction::Nothing));
        }
    }
}

#[test]
fn an_event_out_of_order_fails_the_submission() {
    let expected: Vec<(PipelineState, Vec<usize>)> = vec![
        (PipelineState::Received, vec![0]),
        (PipelineState::Validating, vec![1, 2, 7]),
        (PipelineState::Validated, vec![3, 4, 7]),
        (PipelineState::Executing, vec![5, 6]),
    ];
    for (state, in_order) in expected {
        for (i, event) in all_events().into_iter().enumerate() {
            if in_order.contains(&i) {
                continue;
            }
            let (p, action) = submit_txn(pool(), at(state), event);
            assert_eq!(p.state, PipelineState::Failed);
            assert!(matches!(
                action,
                PipelineAction::Respond(Err(e)) if e == Error::Other("unexpected event".to_string())
            ));
        }
    }
}

#[test]
fn nothing_is_executed_before_validation_and_nothing_committed_before_execution() {
    for state in [
        PipelineState::Received,
        PipelineState::Validating,
        PipelineState::Validated,
        PipelineState::Executing,
        PipelineState::Rejected,
        PipelineState::Failed,
        PipelineState::Committed,
    ] {
        for (i, event) in all_events().into_iter().enumerate() {
            let (p, action) = submit_txn(pool(), at(state), event);
            if matches!(action, PipelineAction::Execute(_)) {
                assert_eq!((state, i), (PipelineState::Validating, 1));
            }
            if matches!(action, PipelineAction::Commit(_)) {
                assert_eq!((state, i), (PipelineState::Validated, 3));
            }
            if p.state == PipelineState::Committed && state != PipelineState::Committed {
                assert_eq!((state, i), (PipelineState::Executing, 5));
            }
        }
    }
}
