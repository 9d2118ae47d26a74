use rpc_server::chain::{ChainId, ChainIdResource};
use rpc_server::error::{Error, ErrorKind};
use rpc_server::move_store::{
    decoded_state_value, encoded_state_value, MoveStore, Mutation, StateStorageUsage,
    DEFAULT_CACHE_SIZE, MOVE_STATE_CF_NAME,
};
use rpc_server::write_set::{StateKey, StateValue, WriteOp, WriteSet};

fn store() -> MoveStore {
    MoveStore::new("./move_store.db", None)
}

fn set(key: &[u8], value: &[u8]) -> (StateKey, WriteOp) {
    (StateKey::new(key.to_vec()), WriteOp::Value(StateValue::new(value.to_vec())))
}

#[test]
fn new_defaults_the_cache_to_100_mib() {
    let s = MoveStore::new("./move_store.db", None);
    assert_eq!(DEFAULT_CACHE_SIZE, 1024 * 1024 * 100);
    assert_eq!(s.cache_size, 104_857_600);
    assert_eq!(s.path, "./move_store.db");
    assert_eq!(s.column_family, "cf_move_state");
    assert_eq!(MOVE_STATE_CF_NAME, "cf_move_state");
    assert!(s.cache_index_and_filter_blocks);
    assert!(s.create_if_missing);
    assert!(s.create_missing_column_families);
}

#[test]
fn new_takes_the_cache_size_given() {
    let s = MoveStore::new("/var/lib/ledger", Some(4096));
    assert_eq!(s.cache_size, 4096);
    assert_eq!(s.path, "/var/lib/ledger");
    let zero = MoveStore::new("x", Some(0));
    assert_eq!(zero.cache_size, 0);
}

#[test]
fn clone_keeps_every_setting() {
    let s = MoveStore::new("a/b", Some(7));
    assert_eq!(s.clone(), s);
}

#[test]
fn add_write_set_encodes_values_and_keeps_deletions() {
    let mut ws = WriteSet::new();
    let (k1, v1) = set(&[1], &[0xC0, 0xDE]);
    ws.insert(k1, v1);
    ws.insert(StateKey::new(vec![2, 2]), WriteOp::Deletion);
    let (k3, v3) = set(&[3], &[]);
    ws.insert(k3, v3);
    let mut batch = Vec::new();
    assert_eq!(store().add_write_set(&mut batch, &ws), Ok(()));
    assert_eq!(
        batch,
        vec![
            Mutation { key: vec![1], value: Some(vec![2, 0xC0, 0xDE]) },
            Mutation { key: vec![2, 2], value: None },
            Mutation { key: vec![3], value: Some(vec![0]) },
        ]
    );
}

#[test]
fn add_write_set_writes_long_lengths_in_base_128() {
    let mut ws = WriteSet::new();
    let (k, v) = set(&[9], &[7u8; 128]);
    ws.insert(k, v);
    let (k, v) = set(&[10], &[5u8; 9487]);
    ws.insert(k, v);
    let mut batch = Vec::new();
    store().add_write_set(&mut batch, &ws).unwrap();
    let first = batch[0].value.clone().unwrap();
    assert_eq!(first.len(), 130);
    assert_eq!(&first[..2], &[0x80, 0x01]);
    assert_eq!(&first[2..], &[7u8; 128][..]);
    let second = batch[1].value.clone().unwrap();
    assert_eq!(second.len(), 9489);
    assert_eq!(&second[..2], &[0x8f, 0x4a]);
    assert!(second[2..].iter().all(|b| *b == 5));
}

#[test]
fn add_write_set_appends_after_what_the_batch_holds() {
    let mut batch = vec![Mutation { key: vec![0], value: None }];
    let mut ws = WriteSet::new();
    let (k, v) = set(&[1], &[1]);
    ws.insert(k, v);
    store().add_write_set(&mut batch, &ws).unwrap();
    assert_eq!(
        batch,
        vec![
            Mutation { key: vec![0], value: None },
            Mutation { key: vec![1], value: Some(vec![1, 1]) },
        ]
    );
}

#[test]
fn add_write_set_of_nothing_stages_nothing() {
    let mut batch = Vec::new();
    assert_eq!(store().add_write_set(&mut batch, &WriteSet::new()), Ok(()));
    assert!(batch.is_empty());
}

#[test]
fn add_write_set_stages_nothing_when_a_value_cannot_be_encoded() {
    let mut ws = WriteSet::new();
    let (k, v) = set(&[1], &[1, 2, 3]);
    ws.insert(k, v);
    ws.insert(StateKey::new(vec![2]), WriteOp::Value(StateValue::new(vec![0u8; 1 << 31])));
    let mut batch = vec![Mutation { key: vec![0], value: None }];
    let err = store().add_write_set(&mut batch, &ws).unwrap_err();
    assert_eq!(err.kind(), ErrorKind::Encode);
    assert!(matches!(err, Error::Encode(_)));
    assert_eq!(batch, vec![Mutation { key: vec![0], value: None }]);
}

#[test]
fn get_state_value_decodes_what_was_staged() {
    let mut ws = WriteSet::new();
    let (k, v) = set(&[1], &[0xC0, 0xDE]);
    ws.insert(k, v);
    let mut batch = Vec::new();
    store().add_write_set(&mut batch, &ws).unwrap();
    let stored = batch.pop().unwrap().value;
    assert_eq!(
        store().get_state_value(Ok(stored)),
        Ok(Some(StateValue::new(vec![0xC0, 0xDE])))
    );
}

#[test]
fn get_state_value_decodes_exact_bytes() {
    assert_eq!(store().get_state_value(Ok(Some(vec![0]))), Ok(Some(StateValue::new(vec![]))));
    assert_eq!(
        store().get_state_value(Ok(Some(vec![3, 10, 20, 30]))),
        Ok(Some(StateValue::new(vec![10, 20, 30])))
    );
}

#[test]
fn get_state_value_of_a_missing_key_is_none() {
    assert_eq!(store().get_state_value(Ok(None)), Ok(None));
}

#[test]
fn get_state_value_tells_a_decode_error_from_not_found() {
    let cases: Vec<Vec<u8>> = vec![
        vec![],
        vec![2, 1],
        vec![1, 1, 1],
        vec![0x80, 0x00],
        vec![0x80],
        vec![0x80, 0x80, 0x80, 0x80, 0x10],
    ];
    for bytes in cases {
        let err = store().get_state_value(Ok(Some(bytes))).unwrap_err();
        assert_eq!(err.kind(), ErrorKind::Decode);
    }
}

#[test]
fn get_state_value_reports_a_storage_failure() {
    let err = store().get_state_value(Err("IO error: lock".to_string())).unwrap_err();
    assert_eq!(err, Error::StorageIo("IO error: lock".to_string()));
    assert_eq!(err.kind(), ErrorKind::StorageIo);
}

#[test]
fn get_usage_is_untracked() {
    assert_eq!(store().get_usage(), StateStorageUsage::Untracked);
}

#[test]
fn chain_resource_is_the_one_byte_of_the_value() {
    let r = store().chain_resource(Ok(Some(StateValue::new(vec![4]))));
    assert_eq!(r, Some(ChainIdResource { chain_id: ChainId::new(4) }));
    assert_eq!(r.unwrap().chain_id().id(), 4);
}

#[test]
fn chain_resource_is_none_without_a_record() {
    assert_eq!(store().chain_resource(Ok(None)), None);
    assert_eq!(store().chain_resource(Ok(Some(StateValue::new(vec![])))), None);
    assert_eq!(store().chain_resource(Ok(Some(StateValue::new(vec![4, 0])))), None);
    assert_eq!(store().chain_resource(Err(Error::StorageIo("gone".to_string()))), None);
    assert_eq!(store().chain_resource(Err(Error::Decode("bad".to_string()))), None);
}

#[test]
fn decoded_state_value_keeps_the_value_or_the_message() {
    assert_eq!(decoded_state_value(Ok(vec![1, 2])), Ok(Some(StateValue::new(vec![1, 2]))));
    assert_eq!(decoded_state_value(Ok(vec![])), Ok(Some(StateValue::new(vec![]))));
    assert_eq!(
        decoded_state_value(Err("remaining input".to_string())),
        Err(Error::Decode("remaining input".to_string()))
    );
}

#[test]
fn encoded_state_value_keeps_the_bytes_or_the_message() {
    assert_eq!(encoded_state_value(Ok(vec![2, 8, 9])), Ok(vec![2, 8, 9]));
    assert_eq!(
        encoded_state_value(Err("exceeded max sequence length: 9".to_string())),
        Err(Error::Encode("exceeded max sequence length: 9".to_string()))
    );
}

#[test]
fn codec_errors_carry_the_message_of_the_codec() {
    let err = store().get_state_value(Ok(Some(vec![1, 1, 1]))).unwrap_err();
    assert_eq!(err, Error::Decode("remaining input".to_string()));
    let err = store().get_state_value(Ok(Some(vec![]))).unwrap_err();
    assert_eq!(err, Error::Decode("unexpected end of input".to_string()));
    let mut ws = WriteSet::new();
    ws.insert(StateKey::new(vec![2]), WriteOp::Value(StateValue::new(vec![0u8; 1 << 31])));
    let mut batch = Vec::new();
    let err = store().add_write_set(&mut batch, &ws).unwrap_err();
    assert_eq!(err, Error::Encode("exceeded max sequence length: 2147483648".to_string()));
}
