use snos_core::felt::Felt;
use snos_core::helper::ExecutionHelper;
use snos_core::types::{
    BlockContext, CallInfo, CallResult, EntryPointType, InternalTransaction, TxExecInfo,
};
use snos_core::STORED_BLOCK_HASH_BUFFER;

fn felt(bytes: &[u8]) -> Felt {
    Felt::from_be_bytes(bytes)
}

fn block_context(block_number: u64) -> BlockContext {
    BlockContext {
        block_number,
        block_timestamp: 1_700_000_000,
        sequencer_address: felt(&[0x05]),
        chain_id: felt(&[0x01]),
        fee_token_address: felt(&[0x07]),
    }
}

fn leaf_call(marker: u8) -> CallInfo {
    CallInfo {
        caller_address: felt(&[marker]),
        entry_point_type: EntryPointType::External,
        storage_read_values: vec![],
        result: CallResult { failed: false, retdata: vec![], gas_consumed: 0 },
        inner_calls: vec![],
    }
}

#[test]
fn empty_batch_opens_no_scope() {
    let mut eh = ExecutionHelper::new(vec![], &block_context(0));
    assert!(eh.tx_execution_info_iter.is_exhausted());
    assert!(eh.tx_execution_info.is_none());
    assert!(eh.call_info.is_none());
    assert!(eh.call_iter.is_exhausted());
}

#[test]
fn single_l1_handler_flat_call_tree() {
    let call = CallInfo {
        caller_address: felt(&[0x01]),
        entry_point_type: EntryPointType::L1Handler,
        storage_read_values: vec![felt(&[0x2a])],
        result: CallResult { failed: false, retdata: vec![], gas_consumed: 5 },
        inner_calls: vec![],
    };
    let tx = TxExecInfo {
        validate_call_info: None,
        execute_call_info: Some(call),
        fee_transfer_call_info: None,
    };
    let mut eh = ExecutionHelper::new(vec![tx], &block_context(0));
    eh.start_tx(None);
    assert!(eh.tx_execution_info.is_some());
    assert!(!eh.call_iter.is_exhausted());
    eh.enter_call(None);
    assert!(!eh.execute_code_read_iter.is_exhausted());
    let read = eh.execute_code_read_iter.next_item();
    assert_eq!(read.bytes, vec![0x2a]);
    assert!(eh.execute_code_read_iter.is_exhausted());
    assert!(eh.deployed_contracts_iter.is_exhausted());
    assert!(eh.result_iter.is_exhausted());
    eh.exit_call();
    eh.end_tx();
    assert!(eh.tx_execution_info.is_none());
    assert!(eh.tx_info_ptr.is_none());
}

#[test]
fn constructor_deploy_exposes_caller_address() {
    let inner = CallInfo {
        caller_address: felt(&[0x01, 0x11]),
        entry_point_type: EntryPointType::Constructor,
        storage_read_values: vec![],
        result: CallResult { failed: false, retdata: vec![felt(&[0x09])], gas_consumed: 3 },
        inner_calls: vec![],
    };
    let outer = CallInfo {
        caller_address: felt(&[0x02]),
        entry_point_type: EntryPointType::External,
        storage_read_values: vec![],
        result: CallResult { failed: false, retdata: vec![], gas_consumed: 9 },
        inner_calls: vec![inner],
    };
    let tx = TxExecInfo {
        validate_call_info: None,
        execute_call_info: Some(outer),
        fee_transfer_call_info: None,
    };
    let mut eh = ExecutionHelper::new(vec![tx], &block_context(0));
    eh.start_tx(None);
    eh.enter_call(None);
    let deployed = eh.deployed_contracts_iter.next_item();
    assert_eq!(deployed.bytes, vec![0x01, 0x11]);
    assert!(eh.deployed_contracts_iter.is_exhausted());
    let result = eh.result_iter.next_item();
    assert!(!result.failed);
    assert_eq!(result.gas_consumed, 3);
    assert_eq!(result.retdata.len(), 1);
    assert_eq!(result.retdata[0].bytes, vec![0x09]);
    assert!(eh.result_iter.is_exhausted());
}

#[test]
fn non_constructor_inner_calls_deploy_nothing() {
    let outer = CallInfo {
        caller_address: felt(&[0x02]),
        entry_point_type: EntryPointType::External,
        storage_read_values: vec![],
        result: CallResult { failed: false, retdata: vec![], gas_consumed: 0 },
        inner_calls: vec![leaf_call(0x31), leaf_call(0x32)],
    };
    let tx = TxExecInfo {
        validate_call_info: None,
        execute_call_info: Some(outer),
        fee_transfer_call_info: None,
    };
    let mut eh = ExecutionHelper::new(vec![tx], &block_context(0));
    eh.start_tx(None);
    eh.enter_call(None);
    assert!(eh.deployed_contracts_iter.is_exhausted());
    let first = eh.result_iter.next_item();
    let second = eh.result_iter.next_item();
    assert!(!first.failed);
    assert!(!second.failed);
    assert!(eh.result_iter.is_exhausted());
}

#[test]
fn call_queue_is_preorder_flattening() {
    // execute tree: 1 -> (2 -> (3), 4); fee transfer: 5.
    let three = leaf_call(0x03);
    let two = CallInfo { inner_calls: vec![three], ..leaf_call(0x02) };
    let four = leaf_call(0x04);
    let one = CallInfo { inner_calls: vec![two, four], ..leaf_call(0x01) };
    let five = leaf_call(0x05);
    let tx = TxExecInfo {
        validate_call_info: None,
        execute_call_info: Some(one),
        fee_transfer_call_info: Some(five),
    };
    let queue = tx.gen_call_iterator();
    let markers: Vec<u8> = queue.iter().map(|c| c.caller_address.bytes[0]).collect();
    assert_eq!(markers, vec![0x01, 0x02, 0x03, 0x04, 0x05]);
}

#[test]
fn validate_execute_fee_order_is_fixed() {
    let tx = TxExecInfo {
        validate_call_info: Some(leaf_call(0x0a)),
        execute_call_info: Some(leaf_call(0x0b)),
        fee_transfer_call_info: Some(leaf_call(0x0c)),
    };
    let queue = tx.gen_call_iterator();
    let markers: Vec<u8> = queue.iter().map(|c| c.caller_address.bytes[0]).collect();
    assert_eq!(markers, vec![0x0a, 0x0b, 0x0c]);
}

#[test]
fn block_buffer_boundary() {
    let below = ExecutionHelper::new(vec![], &block_context(STORED_BLOCK_HASH_BUFFER - 1));
    assert!(below.prev_block_context.is_none());
    let at = ExecutionHelper::new(vec![], &block_context(STORED_BLOCK_HASH_BUFFER));
    assert!(at.prev_block_context.is_some());
    assert_eq!(at.prev_block_context.as_ref().unwrap().block_number, STORED_BLOCK_HASH_BUFFER);
}

#[test]
fn skip_tx_consumes_empty_transaction() {
    let tx = TxExecInfo {
        validate_call_info: None,
        execute_call_info: None,
        fee_transfer_call_info: None,
    };
    let mut eh = ExecutionHelper::new(vec![tx], &block_context(0));
    eh.skip_tx();
    assert!(eh.tx_execution_info_iter.is_exhausted());
    assert!(eh.tx_execution_info.is_none());
}

#[test]
fn skip_call_consumes_flat_call() {
    let tx = TxExecInfo {
        validate_call_info: None,
        execute_call_info: Some(leaf_call(0x01)),
        fee_transfer_call_info: None,
    };
    let mut eh = ExecutionHelper::new(vec![tx], &block_context(0));
    eh.start_tx(None);
    eh.skip_call();
    assert!(eh.call_iter.is_exhausted());
    assert!(eh.call_info.is_none());
    eh.end_tx();
}

#[test]
fn duplicate_preserves_transaction_fields() {
    let tx = InternalTransaction {
        tx_type: String::from("INVOKE_FUNCTION"),
        version: Some(felt(&[0x01])),
        hash_value: felt(&[0xbe, 0xef]),
        contract_address_salt: None,
        contract_hash: None,
        constructor_calldata: None,
    };
    let copy = tx.duplicate();
    assert_eq!(copy.tx_type, "INVOKE_FUNCTION");
    assert_eq!(copy.hash_value.bytes, vec![0xbe, 0xef]);
    assert!(copy.contract_address_salt.is_none());
}
