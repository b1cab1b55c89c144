use snos_core::felt::{decode_bytes, encode_str, Felt};
use snos_core::helper::ExecutionHelper;
use snos_core::hints;
use snos_core::hints::{HintError, TxField};
use snos_core::scopes::{DictEntry, ScopeFrame, Scopes, TxnStream};
use snos_core::types::{
    BlockContext, ContractState, InternalTransaction, OsInput, TxExecInfo,
};
use snos_core::vm::{CellVal, OperandName, Relocatable, SegmentId, Vm, WriteDest};

fn felt(bytes: &[u8]) -> Felt {
    Felt::from_be_bytes(bytes)
}

fn sample_block_context() -> BlockContext {
    BlockContext {
        block_number: 9,
        block_timestamp: 1_700_000_000,
        sequencer_address: felt(&[0x05]),
        chain_id: felt(&[0x53, 0x4e]),
        fee_token_address: felt(&[0x07]),
    }
}

fn sample_os_input() -> OsInput {
    OsInput {
        contracts: vec![(
            felt(&[0x11]),
            ContractState { contract_hash: felt(&[0xaa]), nonce: felt(&[0x02]) },
        )],
        class_hash_to_compiled_class_hash: vec![(felt(&[0x21]), felt(&[0x22]))],
        transactions: vec![sample_tx()],
        block_context: sample_block_context(),
    }
}

fn sample_tx() -> InternalTransaction {
    InternalTransaction {
        tx_type: String::from("INVOKE_FUNCTION"),
        version: Some(felt(&[0x01])),
        hash_value: felt(&[0xbe, 0xef]),
        contract_address_salt: Some(felt(&[0x33])),
        contract_hash: Some(felt(&[0x44])),
        constructor_calldata: Some(vec![felt(&[0x61]), felt(&[0x62])]),
    }
}

fn frame_with_input() -> ScopeFrame {
    let mut frame = ScopeFrame::new_empty();
    frame.os_input = Some(sample_os_input());
    frame
}

#[test]
fn tx_type_round_trip() {
    let encoded = encode_str("INVOKE_FUNCTION").unwrap();
    assert_eq!(decode_bytes(&encoded), b"INVOKE_FUNCTION".to_vec());
    let other = encode_str("L1_HANDLER").unwrap();
    assert_eq!(decode_bytes(&other), b"L1_HANDLER".to_vec());
    assert!(encode_str("").is_none());
    assert!(encode_str("a_name_that_is_far_too_long_to_fit_an_element").is_none());
}

#[test]
fn hash_mismatch_reports_both_values() {
    let mut frame = ScopeFrame::new_empty();
    frame.tx = Some(sample_tx());
    let r = hints::assert_transaction_hash(&frame, felt(&[0xde, 0xad]));
    match r {
        Err(HintError::HashMismatch { computed, expected }) => {
            assert_eq!(computed.bytes, vec![0xde, 0xad]);
            assert_eq!(expected.bytes, vec![0xbe, 0xef]);
        }
        _ => panic!("expected a hash mismatch"),
    }
}

#[test]
fn hash_match_succeeds() {
    let mut frame = ScopeFrame::new_empty();
    frame.tx = Some(sample_tx());
    assert!(hints::assert_transaction_hash(&frame, felt(&[0xbe, 0xef])).is_ok());
}

#[test]
fn hash_check_without_tx_is_missing_variable() {
    let frame = ScopeFrame::new_empty();
    let r = hints::assert_transaction_hash(&frame, felt(&[0x01]));
    assert!(matches!(r, Err(HintError::MissingVariable)));
}

#[test]
fn transactions_len_writes_count() {
    let frame = frame_with_input();
    let mut vm = Vm::new(0);
    assert!(hints::transactions_len(&frame, &mut vm).is_ok());
    assert_eq!(vm.writes.len(), 1);
    match (&vm.writes[0].dest, &vm.writes[0].value) {
        (WriteDest::Ap, CellVal::Int(f)) => assert_eq!(f.bytes, vec![0x01]),
        _ => panic!("expected a felt written to ap"),
    }
}

#[test]
fn transactions_len_of_empty_batch_writes_zero() {
    let mut frame = frame_with_input();
    frame.os_input.as_mut().unwrap().transactions.clear();
    let mut vm = Vm::new(0);
    assert!(hints::transactions_len(&frame, &mut vm).is_ok());
    match (&vm.writes[0].dest, &vm.writes[0].value) {
        (WriteDest::Ap, CellVal::Int(f)) => assert_eq!(f.bytes, Vec::<u8>::new()),
        _ => panic!("expected a felt written to ap"),
    }
}

#[test]
fn block_number_writes_the_depth() {
    let frame = frame_with_input();
    let mut vm = Vm::new(0);
    assert!(hints::block_number(&frame, &mut vm).is_ok());
    match (&vm.writes[0].dest, &vm.writes[0].value) {
        (WriteDest::Ap, CellVal::Int(f)) => assert_eq!(f.bytes, vec![0x09]),
        _ => panic!("expected a felt written to ap"),
    }
}

#[test]
fn segments_add_writes_fresh_base() {
    let mut vm = Vm::new(4);
    assert!(hints::segments_add(&mut vm).is_ok());
    assert_eq!(vm.next_segment, 5);
    match (&vm.writes[0].dest, &vm.writes[0].value) {
        (WriteDest::Ap, CellVal::Ptr(p)) => {
            assert_eq!(*p, Relocatable { segment: SegmentId::Real(4), offset: 0 });
        }
        _ => panic!("expected a pointer written to ap"),
    }
}

#[test]
fn segments_add_temp_writes_fresh_temp_base() {
    let mut vm = Vm::new(0);
    assert!(hints::segments_add_temp(&mut vm).is_ok());
    assert_eq!(vm.next_temp_segment, 1);
    match (&vm.writes[0].dest, &vm.writes[0].value) {
        (WriteDest::Ap, CellVal::Ptr(p)) => {
            assert_eq!(*p, Relocatable { segment: SegmentId::Temp(0), offset: 0 });
        }
        _ => panic!("expected a pointer written to ap"),
    }
}

#[test]
fn starknet_os_input_places_blob_and_message_segments() {
    let mut frame = ScopeFrame::new_empty();
    let mut vm = Vm::new(3);
    let ptr = Relocatable { segment: SegmentId::Real(2), offset: 10 };
    let r = hints::starknet_os_input(sample_os_input(), ptr, &mut frame, &mut vm);
    assert!(r.is_ok());
    assert!(frame.os_input.is_some());
    assert_eq!(vm.next_temp_segment, 2);
    assert_eq!(vm.writes.len(), 2);
    match (&vm.writes[0].dest, &vm.writes[0].value) {
        (WriteDest::Mem(at), CellVal::Ptr(p)) => {
            assert_eq!(*at, ptr);
            assert_eq!(*p, Relocatable { segment: SegmentId::Temp(0), offset: 0 });
        }
        _ => panic!("expected the first message segment"),
    }
    match (&vm.writes[1].dest, &vm.writes[1].value) {
        (WriteDest::Mem(at), CellVal::Ptr(p)) => {
            assert_eq!(*at, Relocatable { segment: SegmentId::Real(2), offset: 11 });
            assert_eq!(*p, Relocatable { segment: SegmentId::Temp(1), offset: 0 });
        }
        _ => panic!("expected the second message segment"),
    }
}

#[test]
fn initialize_state_changes_builds_entries() {
    let mut frame = frame_with_input();
    let mut vm = Vm::new(0);
    assert!(hints::initialize_state_changes(&mut frame, &mut vm).is_ok());
    assert_eq!(vm.next_segment, 2);
    assert_eq!(vm.writes.len(), 3);
    match (&vm.writes[0].dest, &vm.writes[0].value) {
        (WriteDest::Mem(at), CellVal::Int(f)) => {
            assert_eq!(*at, Relocatable { segment: SegmentId::Real(0), offset: 0 });
            assert_eq!(f.bytes, vec![0xaa]);
        }
        _ => panic!("expected the class hash cell"),
    }
    match (&vm.writes[1].dest, &vm.writes[1].value) {
        (WriteDest::Mem(at), CellVal::Ptr(p)) => {
            assert_eq!(*at, Relocatable { segment: SegmentId::Real(0), offset: 1 });
            assert_eq!(*p, Relocatable { segment: SegmentId::Real(1), offset: 0 });
        }
        _ => panic!("expected the storage segment cell"),
    }
    match (&vm.writes[2].dest, &vm.writes[2].value) {
        (WriteDest::Mem(at), CellVal::Int(f)) => {
            assert_eq!(*at, Relocatable { segment: SegmentId::Real(0), offset: 2 });
            assert_eq!(f.bytes, vec![0x02]);
        }
        _ => panic!("expected the nonce cell"),
    }
    let dict = frame.initial_dict.as_ref().unwrap();
    assert_eq!(dict.len(), 1);
    match (&dict[0].key, &dict[0].value) {
        (CellVal::Int(k), CellVal::Ptr(p)) => {
            assert_eq!(k.bytes, vec![0x11]);
            assert_eq!(*p, Relocatable { segment: SegmentId::Real(0), offset: 0 });
        }
        _ => panic!("expected address mapped to state entry"),
    }
}

#[test]
fn replaying_state_changes_is_idempotent() {
    let mut frame1 = frame_with_input();
    let mut frame2 = frame_with_input();
    let mut vm1 = Vm::new(0);
    let mut vm2 = Vm::new(0);
    assert!(hints::initialize_state_changes(&mut frame1, &mut vm1).is_ok());
    assert!(hints::initialize_state_changes(&mut frame2, &mut vm2).is_ok());
    assert_eq!(vm1.writes.len(), vm2.writes.len());
    for (a, b) in vm1.writes.iter().zip(vm2.writes.iter()) {
        assert_eq!(a.dest, b.dest);
        match (&a.value, &b.value) {
            (CellVal::Int(x), CellVal::Int(y)) => assert_eq!(x.bytes, y.bytes),
            (CellVal::Ptr(x), CellVal::Ptr(y)) => assert_eq!(x, y),
            _ => panic!("write streams diverged"),
        }
    }
}

#[test]
fn initialize_class_hashes_builds_dict() {
    let mut frame = frame_with_input();
    assert!(hints::initialize_class_hashes(&mut frame).is_ok());
    let dict = frame.initial_dict.as_ref().unwrap();
    assert_eq!(dict.len(), 1);
    match (&dict[0].key, &dict[0].value) {
        (CellVal::Int(k), CellVal::Int(v)) => {
            assert_eq!(k.bytes, vec![0x21]);
            assert_eq!(v.bytes, vec![0x22]);
        }
        _ => panic!("expected class hash pair"),
    }
}

#[test]
fn load_next_tx_encodes_type_name() {
    let mut frame = ScopeFrame::new_empty();
    frame.transactions = Some(TxnStream::from_vec(vec![sample_tx()]));
    let mut vm = Vm::new(0);
    assert!(hints::load_next_tx(&mut frame, &mut vm).is_ok());
    assert!(frame.tx.is_some());
    assert_eq!(frame.tx.as_ref().unwrap().tx_type, "INVOKE_FUNCTION");
    match (&vm.writes[0].dest, &vm.writes[0].value) {
        (WriteDest::Operand(OperandName::TxType), CellVal::Int(f)) => {
            assert_eq!(f.bytes, b"INVOKE_FUNCTION".to_vec());
        }
        _ => panic!("expected the tx type operand"),
    }
}

#[test]
fn load_next_tx_underflow() {
    let mut frame = ScopeFrame::new_empty();
    frame.transactions = Some(TxnStream::from_vec(vec![]));
    let mut vm = Vm::new(0);
    let r = hints::load_next_tx(&mut frame, &mut vm);
    assert!(matches!(r, Err(HintError::TraceUnderflow)));
}

#[test]
fn load_next_tx_rejects_unencodable_name() {
    let mut tx = sample_tx();
    tx.tx_type = String::from("a_type_name_that_is_far_too_long_for_an_element");
    let mut frame = ScopeFrame::new_empty();
    frame.transactions = Some(TxnStream::from_vec(vec![tx]));
    let mut vm = Vm::new(0);
    let r = hints::load_next_tx(&mut frame, &mut vm);
    assert!(matches!(r, Err(HintError::InvalidTypeName)));
}

#[test]
fn prepare_constructor_execution_writes_everything() {
    let mut frame = ScopeFrame::new_empty();
    frame.tx = Some(sample_tx());
    let mut vm = Vm::new(0);
    assert!(hints::prepare_constructor_execution(&frame, &mut vm).is_ok());
    assert_eq!(vm.next_segment, 1);
    assert_eq!(vm.writes.len(), 6);
    match (&vm.writes[0].dest, &vm.writes[0].value) {
        (WriteDest::Operand(OperandName::ContractAddressSalt), CellVal::Int(f)) => {
            assert_eq!(f.bytes, vec![0x33]);
        }
        _ => panic!("expected the salt"),
    }
    match (&vm.writes[1].dest, &vm.writes[1].value) {
        (WriteDest::Operand(OperandName::ClassHash), CellVal::Int(f)) => {
            assert_eq!(f.bytes, vec![0x44]);
        }
        _ => panic!("expected the class hash"),
    }
    match (&vm.writes[2].dest, &vm.writes[2].value) {
        (WriteDest::Operand(OperandName::ConstructorCalldataSize), CellVal::Int(f)) => {
            assert_eq!(f.bytes, vec![0x02]);
        }
        _ => panic!("expected the calldata size"),
    }
    match (&vm.writes[3].dest, &vm.writes[3].value) {
        (WriteDest::Mem(at), CellVal::Int(f)) => {
            assert_eq!(*at, Relocatable { segment: SegmentId::Real(0), offset: 0 });
            assert_eq!(f.bytes, vec![0x61]);
        }
        _ => panic!("expected the first calldata cell"),
    }
    match (&vm.writes[4].dest, &vm.writes[4].value) {
        (WriteDest::Mem(at), CellVal::Int(f)) => {
            assert_eq!(*at, Relocatable { segment: SegmentId::Real(0), offset: 1 });
            assert_eq!(f.bytes, vec![0x62]);
        }
        _ => panic!("expected the second calldata cell"),
    }
    match (&vm.writes[5].dest, &vm.writes[5].value) {
        (WriteDest::Operand(OperandName::ConstructorCalldata), CellVal::Ptr(p)) => {
            assert_eq!(*p, Relocatable { segment: SegmentId::Real(0), offset: 0 });
        }
        _ => panic!("expected the calldata base"),
    }
}

#[test]
fn prepare_constructor_execution_missing_salt() {
    let mut tx = sample_tx();
    tx.contract_address_salt = None;
    let mut frame = ScopeFrame::new_empty();
    frame.tx = Some(tx);
    let mut vm = Vm::new(0);
    let r = hints::prepare_constructor_execution(&frame, &mut vm);
    assert!(matches!(r, Err(HintError::MissingField(TxField::ContractAddressSalt))));
    assert_eq!(vm.writes.len(), 0);
}

#[test]
fn prepare_constructor_execution_missing_hash() {
    let mut tx = sample_tx();
    tx.contract_hash = None;
    let mut frame = ScopeFrame::new_empty();
    frame.tx = Some(tx);
    let mut vm = Vm::new(0);
    let r = hints::prepare_constructor_execution(&frame, &mut vm);
    assert!(matches!(r, Err(HintError::MissingField(TxField::ContractHash))));
}

#[test]
fn transaction_version_written_or_missing() {
    let mut frame = ScopeFrame::new_empty();
    frame.tx = Some(sample_tx());
    let mut vm = Vm::new(0);
    assert!(hints::transaction_version(&frame, &mut vm).is_ok());
    match (&vm.writes[0].dest, &vm.writes[0].value) {
        (WriteDest::Ap, CellVal::Int(f)) => assert_eq!(f.bytes, vec![0x01]),
        _ => panic!("expected the version on ap"),
    }
    let mut versionless = sample_tx();
    versionless.version = None;
    frame.tx = Some(versionless);
    let r = hints::transaction_version(&frame, &mut vm);
    assert!(matches!(r, Err(HintError::MissingField(TxField::Version))));
}

#[test]
fn early_exit_call_is_invariant_violation() {
    let inner = snos_core::types::CallInfo {
        caller_address: felt(&[0x01]),
        entry_point_type: snos_core::types::EntryPointType::External,
        storage_read_values: vec![],
        result: snos_core::types::CallResult { failed: false, retdata: vec![], gas_consumed: 0 },
        inner_calls: vec![],
    };
    let outer = snos_core::types::CallInfo {
        caller_address: felt(&[0x02]),
        entry_point_type: snos_core::types::EntryPointType::External,
        storage_read_values: vec![],
        result: snos_core::types::CallResult { failed: false, retdata: vec![], gas_consumed: 0 },
        inner_calls: vec![inner],
    };
    let tx = TxExecInfo {
        validate_call_info: None,
        execute_call_info: Some(outer),
        fee_transfer_call_info: None,
    };
    let mut eh = ExecutionHelper::new(vec![tx], &sample_block_context());
    eh.start_tx(None);
    assert!(hints::enter_call(&mut eh, None).is_ok());
    // result_iter still holds the inner call's result: exiting now is fatal.
    let r = hints::exit_call(&mut eh);
    assert!(matches!(r, Err(HintError::InvariantViolation)));
}

#[test]
fn enter_call_twice_is_invariant_violation() {
    let tx = TxExecInfo {
        validate_call_info: None,
        execute_call_info: Some(snos_core::types::CallInfo {
            caller_address: felt(&[0x01]),
            entry_point_type: snos_core::types::EntryPointType::External,
            storage_read_values: vec![],
            result: snos_core::types::CallResult {
                failed: false,
                retdata: vec![],
                gas_consumed: 0,
            },
            inner_calls: vec![],
        }),
        fee_transfer_call_info: None,
    };
    let mut eh = ExecutionHelper::new(vec![tx], &sample_block_context());
    eh.start_tx(None);
    assert!(hints::enter_call(&mut eh, None).is_ok());
    let r = hints::enter_call(&mut eh, None);
    assert!(matches!(r, Err(HintError::InvariantViolation)));
}

#[test]
fn enter_call_underflow() {
    let mut eh = ExecutionHelper::new(vec![], &sample_block_context());
    let r = hints::enter_call(&mut eh, None);
    assert!(matches!(r, Err(HintError::TraceUnderflow)));
}

#[test]
fn deprecation_flag_round_trip() {
    let mut frame = ScopeFrame::new_empty();
    frame.deprecated_class_hashes = Some(vec![felt(&[0x77])]);
    assert!(hints::check_is_deprecated(&mut frame, &felt(&[0x77])).is_ok());
    assert_eq!(frame.is_deprecated_flag, Some(true));
    let mut vm = Vm::new(0);
    assert!(hints::is_deprecated(&frame, &mut vm).is_ok());
    match (&vm.writes[0].dest, &vm.writes[0].value) {
        (WriteDest::Ap, CellVal::Int(f)) => assert_eq!(f.bytes, vec![0x01]),
        _ => panic!("expected the flag on ap"),
    }
    assert!(hints::check_is_deprecated(&mut frame, &felt(&[0x78])).is_ok());
    assert_eq!(frame.is_deprecated_flag, Some(false));
    assert!(hints::is_deprecated(&frame, &mut vm).is_ok());
    match (&vm.writes[1].dest, &vm.writes[1].value) {
        (WriteDest::Ap, CellVal::Int(f)) => assert_eq!(f.bytes, Vec::<u8>::new()),
        _ => panic!("expected the flag on ap"),
    }
}

#[test]
fn check_deprecated_class_hash_accepts() {
    assert!(hints::check_deprecated_class_hash().is_ok());
}

#[test]
fn enter_syscall_scopes_copies_batch_state() {
    let mut scopes = Scopes::new_root();
    let mut frame = scopes.take_frame();
    frame.os_input = Some(sample_os_input());
    frame.deprecated_class_hashes = Some(vec![felt(&[0x77])]);
    frame.dict_manager = true;
    scopes.restore_frame(frame);
    assert!(hints::enter_syscall_scopes(&mut scopes).is_ok());
    assert_eq!(scopes.frames.len(), 2);
    let inner = scopes.take_frame();
    assert!(inner.os_input.is_none());
    assert!(inner.dict_manager);
    assert_eq!(inner.deprecated_class_hashes.as_ref().unwrap().len(), 1);
    let txs = inner.transactions.as_ref().unwrap();
    assert_eq!(txs.items.len(), 1);
}

#[test]
fn enter_syscall_scopes_requires_batch_state() {
    let mut scopes = Scopes::new_root();
    let r = hints::enter_syscall_scopes(&mut scopes);
    assert!(matches!(r, Err(HintError::MissingVariable)));
    assert_eq!(scopes.frames.len(), 1);
}

#[test]
fn builtin_selection() {
    let mut scopes = Scopes::new_root();
    let mut vm = Vm::new(0);
    assert!(hints::selected_builtins(vec![felt(&[0x51]), felt(&[0x52])], &mut scopes, &mut vm)
        .is_ok());
    match (&vm.writes[0].dest, &vm.writes[0].value) {
        (WriteDest::Ap, CellVal::Int(f)) => assert_eq!(f.bytes, vec![0x02]),
        _ => panic!("expected the count on ap"),
    }
    let mut frame = scopes.take_frame();
    assert!(hints::select_builtin(&mut frame, &felt(&[0x51]), &mut vm).is_ok());
    match &vm.writes[1].value {
        CellVal::Int(f) => assert_eq!(f.bytes, vec![0x01]),
        _ => panic!("expected the hit flag"),
    }
    assert!(hints::select_builtin(&mut frame, &felt(&[0x99]), &mut vm).is_ok());
    match &vm.writes[2].value {
        CellVal::Int(f) => assert_eq!(f.bytes, Vec::<u8>::new()),
        _ => panic!("expected the miss flag"),
    }
    assert_eq!(frame.selected_builtins.as_ref().unwrap().len(), 1);
}

#[test]
fn get_state_entry_found_and_missing() {
    let mut frame = ScopeFrame::new_empty();
    frame.contract_state_changes = Some(vec![DictEntry {
        key: CellVal::Int(felt(&[0x11])),
        value: CellVal::Ptr(Relocatable { segment: SegmentId::Real(0), offset: 0 }),
    }]);
    let mut vm = Vm::new(5);
    assert!(hints::get_state_entry(&frame, &felt(&[0x11]), &mut vm).is_ok());
    match (&vm.writes[0].dest, &vm.writes[0].value) {
        (WriteDest::Operand(OperandName::StateEntry), CellVal::Ptr(p)) => {
            assert_eq!(*p, Relocatable { segment: SegmentId::Real(0), offset: 0 });
        }
        _ => panic!("expected the state entry pointer"),
    }
    let r = hints::get_state_entry(&frame, &felt(&[0x12]), &mut vm);
    assert!(matches!(r, Err(HintError::KeyNotFound)));
}

#[test]
fn os_context_segments_allocates_two() {
    let mut vm = Vm::new(0);
    assert!(hints::os_context_segments(&mut vm).is_ok());
    assert_eq!(vm.next_segment, 2);
    assert_eq!(vm.writes.len(), 0);
}

#[test]
fn os_input_overflowing_pointer_is_rejected() {
    let mut frame = ScopeFrame::new_empty();
    let mut vm = Vm::new(0);
    let ptr = Relocatable { segment: SegmentId::Real(2), offset: u64::MAX };
    let r = hints::starknet_os_input(sample_os_input(), ptr, &mut frame, &mut vm);
    assert!(matches!(r, Err(HintError::PtrOverflow)));
    assert!(frame.os_input.is_none());
}
