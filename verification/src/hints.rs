//! The hint handlers: one verified transducer per hint label.
//!
//! The host VM invokes a handler by name; the glue outside the library
//! reads the operand values the handler consumes, calls it, and performs
//! the writes it emits. Every handler is total: a broken precondition
//! comes back as a `HintError` for the VM driver, which aborts the run.

use vstd::prelude::*;
use vstd::assert_by_contradiction;
use vstd::string::StringSliceAdditionalSpecFns;
use crate::felt::{encode_str, strip_leading_zeros, u64_be_bytes, Felt};
use crate::helper::ExecutionHelper;
use crate::scopes::{DictEntry, DictEntryModel, ScopeFrame, ScopeFrameModel, Scopes, TxnStream};
use crate::types::{clone_felts, ContractStateModel, OsInput};
use crate::vm::{CellVal, MemValModel, MemWriteModel, OperandName, Relocatable, SegmentId, Vm,
    VmModel, WriteDest};

verus! {

broadcast use vstd::std_specs::vec::group_vec_axioms;

/// A transaction field a hint may find missing.
#[derive(Clone, Copy, PartialEq, Eq, Structural, Debug)]
pub enum TxField {
    Version,
    ContractHash,
    ContractAddressSalt,
}

/// What a handler reports to the VM driver; every error aborts the run.
#[derive(Debug)]
pub enum HintError {
    /// A scope variable the hint consumes is not set.
    MissingVariable,
    /// The active transaction lacks a field the hint writes out.
    MissingField(TxField),
    /// A queue was consumed past its end.
    TraceUnderflow,
    /// A scope was opened twice, or closed while its views held elements.
    InvariantViolation,
    /// The hash the OS computed disagrees with the transaction's.
    HashMismatch { computed: Felt, expected: Felt },
    /// A dictionary lookup found no entry for the key.
    KeyNotFound,
    /// Pointer arithmetic left the address space.
    PtrOverflow,
    /// A transaction type name that no field element can carry.
    InvalidTypeName,
}

/// Ghost mirror of `HintError`.
#[verifier::ext_equal]
pub ghost enum HintErrorModel {
    MissingVariable,
    MissingField(TxField),
    TraceUnderflow,
    InvariantViolation,
    HashMismatch { computed: Seq<u8>, expected: Seq<u8> },
    KeyNotFound,
    PtrOverflow,
    InvalidTypeName,
}

impl HintError {
    pub open spec fn model(self) -> HintErrorModel {
        match self {
            HintError::MissingVariable => HintErrorModel::MissingVariable,
            HintError::MissingField(f) => HintErrorModel::MissingField(f),
            HintError::TraceUnderflow => HintErrorModel::TraceUnderflow,
            HintError::InvariantViolation => HintErrorModel::InvariantViolation,
            HintError::HashMismatch { computed, expected } => (HintErrorModel::HashMismatch {
                computed: computed@,
                expected: expected@,
            }),
            HintError::KeyNotFound => HintErrorModel::KeyNotFound,
            HintError::PtrOverflow => HintErrorModel::PtrOverflow,
            HintError::InvalidTypeName => HintErrorModel::InvalidTypeName,
        }
    }
}

/// The outcome a handler hands the VM driver.
pub type HintOutcome = Result<(), HintError>;

/// The outcome's ghost shape.
pub open spec fn outcome_model(r: HintOutcome) -> Option<HintErrorModel> {
    match r {
        Result::Ok(_) => Option::None,
        Result::Err(e) => Option::Some(e.model()),
    }
}

/// The two writes the input-loading hint emits: the bases of two fresh
/// temporary segments, at the carried-outputs cell and the one after it.
pub open spec fn os_input_writes(ptr: Relocatable, t0: u64) -> Seq<MemWriteModel> {
    seq![
        MemWriteModel {
            dest: WriteDest::Mem(ptr),
            value: MemValModel::Ptr(
                Relocatable { segment: SegmentId::Temp(t0), offset: 0 },
            ),
        },
        MemWriteModel {
            dest: WriteDest::Mem(Relocatable { segment: ptr.segment, offset: (ptr.offset + 1) as u64 }),
            value: MemValModel::Ptr(
                Relocatable { segment: SegmentId::Temp((t0 + 1) as u64), offset: 0 },
            ),
        },
    ]
}

/// Store the loaded OS input in scope and hand the carried-outputs struct
/// the bases of two fresh temporary message segments. The glue loads the
/// input file itself; this hint only places the parsed blob.
pub fn starknet_os_input(
    os_input: OsInput,
    initial_carried_outputs: Relocatable,
    frame: &mut ScopeFrame,
    vm: &mut Vm,
) -> (r: HintOutcome)
    requires
        old(frame).wf(),
        old(vm).next_temp_segment + 2 <= u64::MAX,
    ensures
        final(frame).wf(),
        initial_carried_outputs.offset < u64::MAX ==> (r is Ok && final(frame).model()
            == (ScopeFrameModel { os_input: Option::Some(os_input.model()), ..old(frame).model() })
            && final(vm).model() == (VmModel {
            next_temp_segment: (old(vm).next_temp_segment + 2) as u64,
            writes: old(vm).model().writes + os_input_writes(
                initial_carried_outputs,
                old(vm).next_temp_segment,
            ),
            ..old(vm).model()
        })),
        initial_carried_outputs.offset == u64::MAX ==> (outcome_model(r) == Option::Some(
            HintErrorModel::PtrOverflow,
        ) && final(frame).model() == old(frame).model() && final(vm).model() == old(vm).model()),
{
    if initial_carried_outputs.offset == u64::MAX {
        return Result::Err(HintError::PtrOverflow);
    }
    let messages_to_l1 = initial_carried_outputs;
    let messages_to_l2 = Relocatable {
        segment: initial_carried_outputs.segment,
        offset: initial_carried_outputs.offset + 1,
    };
    let t1 = vm.add_temp_segment();
    vm.write(WriteDest::Mem(messages_to_l1), CellVal::Ptr(t1));
    let t2 = vm.add_temp_segment();
    vm.write(WriteDest::Mem(messages_to_l2), CellVal::Ptr(t2));
    frame.os_input = Option::Some(os_input);
    proof {
        assert(final(vm).model().writes =~= old(vm).model().writes + os_input_writes(
            initial_carried_outputs,
            old(vm).next_temp_segment,
        ));
        assert(final(frame).model() =~= (ScopeFrameModel {
            os_input: Option::Some(os_input.model()),
            ..old(frame).model()
        }));
    }
    Result::Ok(())
}

/// The block-number cell value: the chain depth as a field element.
pub open spec fn felt_of_u64(v: u64) -> Seq<u8> {
    strip_leading_zeros(u64_be_bytes(v))
}

/// Write the block number to ap.
pub fn block_number(frame: &ScopeFrame, vm: &mut Vm) -> (r: HintOutcome)
    ensures
        match frame.model().os_input {
            Option::Some(o) => (r is Ok && final(vm).model() == (VmModel {
                writes: old(vm).model().writes.push(
                    MemWriteModel {
                        dest: WriteDest::Ap,
                        value: MemValModel::Int(felt_of_u64(o.block_context.block_number)),
                    },
                ),
                ..old(vm).model()
            })),
            Option::None => (outcome_model(r) == Option::Some(HintErrorModel::MissingVariable)
                && final(vm).model() == old(vm).model()),
        },
{
    match &frame.os_input {
        Option::Some(o) => {
            let f = Felt::from_u64(o.block_context.block_number);
            vm.write(WriteDest::Ap, CellVal::Int(f));
            Result::Ok(())
        },
        Option::None => Result::Err(HintError::MissingVariable),
    }
}

/// Write the block timestamp to ap.
pub fn block_timestamp(frame: &ScopeFrame, vm: &mut Vm) -> (r: HintOutcome)
    ensures
        match frame.model().os_input {
            Option::Some(o) => (r is Ok && final(vm).model() == (VmModel {
                writes: old(vm).model().writes.push(
                    MemWriteModel {
                        dest: WriteDest::Ap,
                        value: MemValModel::Int(felt_of_u64(o.block_context.block_timestamp)),
                    },
                ),
                ..old(vm).model()
            })),
            Option::None => (outcome_model(r) == Option::Some(HintErrorModel::MissingVariable)
                && final(vm).model() == old(vm).model()),
        },
{
    match &frame.os_input {
        Option::Some(o) => {
            let f = Felt::from_u64(o.block_context.block_timestamp);
            vm.write(WriteDest::Ap, CellVal::Int(f));
            Result::Ok(())
        },
        Option::None => Result::Err(HintError::MissingVariable),
    }
}

/// Write the sequencer address to ap.
pub fn sequencer_address(frame: &ScopeFrame, vm: &mut Vm) -> (r: HintOutcome)
    ensures
        match frame.model().os_input {
            Option::Some(o) => (r is Ok && final(vm).model() == (VmModel {
                writes: old(vm).model().writes.push(
                    MemWriteModel {
                        dest: WriteDest::Ap,
                        value: MemValModel::Int(o.block_context.sequencer_address),
                    },
                ),
                ..old(vm).model()
            })),
            Option::None => (outcome_model(r) == Option::Some(HintErrorModel::MissingVariable)
                && final(vm).model() == old(vm).model()),
        },
{
    match &frame.os_input {
        Option::Some(o) => {
            let f = o.block_context.sequencer_address.clone();
            vm.write(WriteDest::Ap, CellVal::Int(f));
            Result::Ok(())
        },
        Option::None => Result::Err(HintError::MissingVariable),
    }
}

/// Write the chain id to ap.
pub fn chain_id(frame: &ScopeFrame, vm: &mut Vm) -> (r: HintOutcome)
    ensures
        match frame.model().os_input {
            Option::Some(o) => (r is Ok && final(vm).model() == (VmModel {
                writes: old(vm).model().writes.push(
                    MemWriteModel {
                        dest: WriteDest::Ap,
                        value: MemValModel::Int(o.block_context.chain_id),
                    },
                ),
                ..old(vm).model()
            })),
            Option::None => (outcome_model(r) == Option::Some(HintErrorModel::MissingVariable)
                && final(vm).model() == old(vm).model()),
        },
{
    match &frame.os_input {
        Option::Some(o) => {
            let f = o.block_context.chain_id.clone();
            vm.write(WriteDest::Ap, CellVal::Int(f));
            Result::Ok(())
        },
        Option::None => Result::Err(HintError::MissingVariable),
    }
}

/// Write the fee-token address to ap.
pub fn fee_token_address(frame: &ScopeFrame, vm: &mut Vm) -> (r: HintOutcome)
    ensures
        match frame.model().os_input {
            Option::Some(o) => (r is Ok && final(vm).model() == (VmModel {
                writes: old(vm).model().writes.push(
                    MemWriteModel {
                        dest: WriteDest::Ap,
                        value: MemValModel::Int(o.block_context.fee_token_address),
                    },
                ),
                ..old(vm).model()
            })),
            Option::None => (outcome_model(r) == Option::Some(HintErrorModel::MissingVariable)
                && final(vm).model() == old(vm).model()),
        },
{
    match &frame.os_input {
        Option::Some(o) => {
            let f = o.block_context.fee_token_address.clone();
            vm.write(WriteDest::Ap, CellVal::Int(f));
            Result::Ok(())
        },
        Option::None => Result::Err(HintError::MissingVariable),
    }
}

/// The deprecated compiled-class check is a placeholder: it accepts.
pub fn check_deprecated_class_hash() -> (r: HintOutcome)
    ensures
        r is Ok,
{
    Result::Ok(())
}

/// Write the base of a fresh segment to ap.
pub fn segments_add(vm: &mut Vm) -> (r: HintOutcome)
    requires
        old(vm).next_segment < u64::MAX,
    ensures
        r is Ok,
        final(vm).model() == (VmModel {
            next_segment: (old(vm).next_segment + 1) as u64,
            writes: old(vm).model().writes.push(
                MemWriteModel {
                    dest: WriteDest::Ap,
                    value: MemValModel::Ptr(
                        Relocatable { segment: SegmentId::Real(old(vm).next_segment), offset: 0 },
                    ),
                },
            ),
            ..old(vm).model()
        }),
{
    let base = vm.add_segment();
    vm.write(WriteDest::Ap, CellVal::Ptr(base));
    Result::Ok(())
}

/// Write the base of a fresh temporary segment to ap.
pub fn segments_add_temp(vm: &mut Vm) -> (r: HintOutcome)
    requires
        old(vm).next_temp_segment < u64::MAX,
    ensures
        r is Ok,
        final(vm).model() == (VmModel {
            next_temp_segment: (old(vm).next_temp_segment + 1) as u64,
            writes: old(vm).model().writes.push(
                MemWriteModel {
                    dest: WriteDest::Ap,
                    value: MemValModel::Ptr(
                        Relocatable {
                            segment: SegmentId::Temp(old(vm).next_temp_segment),
                            offset: 0,
                        },
                    ),
                },
            ),
            ..old(vm).model()
        }),
{
    let base = vm.add_temp_segment();
    vm.write(WriteDest::Ap, CellVal::Ptr(base));
    Result::Ok(())
}

/// Write the number of transactions in the batch to ap.
pub fn transactions_len(frame: &ScopeFrame, vm: &mut Vm) -> (r: HintOutcome)
    requires
        frame.wf(),
    ensures
        match frame.model().os_input {
            Option::Some(o) => (r is Ok && final(vm).model() == (VmModel {
                writes: old(vm).model().writes.push(
                    MemWriteModel {
                        dest: WriteDest::Ap,
                        value: MemValModel::Int(felt_of_u64(o.transactions.len() as u64)),
                    },
                ),
                ..old(vm).model()
            })),
            Option::None => (outcome_model(r) == Option::Some(HintErrorModel::MissingVariable)
                && final(vm).model() == old(vm).model()),
        },
{
    match &frame.os_input {
        Option::Some(o) => {
            let n: usize = o.transactions.len();
            let f = Felt::from_u64(n as u64);
            vm.write(WriteDest::Ap, CellVal::Int(f));
            Result::Ok(())
        },
        Option::None => Result::Err(HintError::MissingVariable),
    }
}

/// The write triple one contract's state entry costs: its class hash, a
/// fresh storage segment's base, and its nonce, at three consecutive
/// cells of a fresh segment.
pub open spec fn state_change_triple(p: (Seq<u8>, ContractStateModel), s: int) -> Seq<
    MemWriteModel,
> {
    seq![
        MemWriteModel {
            dest: WriteDest::Mem(
                Relocatable { segment: SegmentId::Real(s as u64), offset: 0 },
            ),
            value: MemValModel::Int(p.1.contract_hash),
        },
        MemWriteModel {
            dest: WriteDest::Mem(
                Relocatable { segment: SegmentId::Real(s as u64), offset: 1 },
            ),
            value: MemValModel::Ptr(
                Relocatable { segment: SegmentId::Real((s + 1) as u64), offset: 0 },
            ),
        },
        MemWriteModel {
            dest: WriteDest::Mem(
                Relocatable { segment: SegmentId::Real(s as u64), offset: 2 },
            ),
            value: MemValModel::Int(p.1.nonce),
        },
    ]
}

/// The writes state initialization emits for a contract list, two fresh
/// segments per contract starting at segment `b`.
pub open spec fn state_change_writes(
    contracts: Seq<(Seq<u8>, ContractStateModel)>,
    b: int,
) -> Seq<MemWriteModel>
    decreases contracts.len(),
{
    if contracts.len() == 0 {
        Seq::empty()
    } else {
        state_change_writes(contracts.drop_last(), b) + state_change_triple(
            contracts.last(),
            b + 2 * (contracts.len() - 1),
        )
    }
}

/// The dictionary state initialization builds: each contract address
/// mapped to the base of its state-entry segment.
pub open spec fn state_change_dict(
    contracts: Seq<(Seq<u8>, ContractStateModel)>,
    b: int,
) -> Seq<DictEntryModel>
    decreases contracts.len(),
{
    if contracts.len() == 0 {
        Seq::empty()
    } else {
        state_change_dict(contracts.drop_last(), b).push(
            DictEntryModel {
                key: MemValModel::Int(contracts.last().0),
                value: MemValModel::Ptr(
                    Relocatable {
                        segment: SegmentId::Real((b + 2 * (contracts.len() - 1)) as u64),
                        offset: 0,
                    },
                ),
            },
        )
    }
}

/// Build the initial state dictionary: for every contract of the input,
/// allocate a three-cell state entry (class hash, fresh storage segment,
/// nonce) and map the contract's address to it.
pub fn initialize_state_changes(frame: &mut ScopeFrame, vm: &mut Vm) -> (r: HintOutcome)
    requires
        old(frame).wf(),
        match old(frame).model().os_input {
            Option::Some(o) => old(vm).next_segment + 2 * o.contracts.len() <= u64::MAX,
            Option::None => true,
        },
    ensures
        final(frame).wf(),
        match old(frame).model().os_input {
            Option::Some(o) => (r is Ok && final(frame).model() == (ScopeFrameModel {
                initial_dict: Option::Some(
                    state_change_dict(o.contracts, old(vm).next_segment as int),
                ),
                ..old(frame).model()
            }) && final(vm).model() == (VmModel {
                next_segment: (old(vm).next_segment + 2 * o.contracts.len()) as u64,
                writes: old(vm).model().writes + state_change_writes(
                    o.contracts,
                    old(vm).next_segment as int,
                ),
                ..old(vm).model()
            })),
            Option::None => (outcome_model(r) == Option::Some(HintErrorModel::MissingVariable)
                && final(frame).model() == old(frame).model() && final(vm).model() == old(vm).model()),
        },
{
    let ghost base = vm.next_segment as int;
    let ghost w0 = vm.model().writes;
    match &frame.os_input {
        Option::Some(o) => {
            let ghost cm = o.model().contracts;
            let mut dict: Vec<DictEntry> = Vec::new();
            let mut i: usize = 0;
            while i < o.contracts.len()
                invariant
                    i <= o.contracts@.len(),
                    cm == o.model().contracts,
                    cm.len() == o.contracts@.len(),
                    base + 2 * cm.len() <= u64::MAX,
                    vm.next_segment == base + 2 * i,
                    vm.next_temp_segment == old(vm).next_temp_segment,
                    vm.model().writes =~= w0 + state_change_writes(cm.take(i as int), base),
                    dict@.map_values(|e: DictEntry| e.model()) =~= state_change_dict(
                        cm.take(i as int),
                        base,
                    ),
                decreases o.contracts@.len() - i,
            {
                proof {
                    assert(cm[i as int] == (o.contracts@[i as int].0@,
                    o.contracts@[i as int].1.model()));
                }
                let change_base = vm.add_segment();
                vm.write(
                    WriteDest::Mem(change_base),
                    CellVal::Int(o.contracts[i].1.contract_hash.clone()),
                );
                let storage_base = vm.add_segment();
                vm.write(
                    WriteDest::Mem(Relocatable { segment: change_base.segment, offset: 1 }),
                    CellVal::Ptr(storage_base),
                );
                vm.write(
                    WriteDest::Mem(Relocatable { segment: change_base.segment, offset: 2 }),
                    CellVal::Int(o.contracts[i].1.nonce.clone()),
                );
                dict.push(
                    DictEntry {
                        key: CellVal::Int(o.contracts[i].0.clone()),
                        value: CellVal::Ptr(change_base),
                    },
                );
                i = i + 1;
                proof {
                    assert(cm.take(i as int).drop_last() =~= cm.take(i - 1));
                    assert(cm.take(i as int).last() == cm[i - 1]);
                    assert(state_change_writes(cm.take(i as int), base) == state_change_writes(
                        cm.take(i - 1),
                        base,
                    ) + state_change_triple(cm[i - 1], base + 2 * (i - 1)));
                    assert(vm.model().writes =~= w0 + state_change_writes(
                        cm.take(i as int),
                        base,
                    ));
                    assert(dict@.map_values(|e: DictEntry| e.model()) =~= state_change_dict(
                        cm.take(i as int),
                        base,
                    ));
                }
            }
            proof {
                assert(cm.take(cm.len() as int) =~= cm);
            }
            frame.initial_dict = Option::Some(dict);
            proof {
                assert(final(frame).model() =~= (ScopeFrameModel {
                    initial_dict: Option::Some(state_change_dict(cm, base)),
                    ..old(frame).model()
                }));
            }
            Result::Ok(())
        },
        Option::None => Result::Err(HintError::MissingVariable),
    }
}

/// The dictionary the class-hash initialization builds: each class hash
/// mapped to its compiled class hash.
pub open spec fn class_hash_dict(pairs: Seq<(Seq<u8>, Seq<u8>)>) -> Seq<DictEntryModel> {
    pairs.map_values(
        |p: (Seq<u8>, Seq<u8>)| DictEntryModel {
            key: MemValModel::Int(p.0),
            value: MemValModel::Int(p.1),
        },
    )
}

/// Build the initial class dictionary: class hash to compiled class hash.
pub fn initialize_class_hashes(frame: &mut ScopeFrame) -> (r: HintOutcome)
    requires
        old(frame).wf(),
    ensures
        final(frame).wf(),
        match old(frame).model().os_input {
            Option::Some(o) => (r is Ok && final(frame).model() == (ScopeFrameModel {
                initial_dict: Option::Some(class_hash_dict(o.class_hash_to_compiled_class_hash)),
                ..old(frame).model()
            })),
            Option::None => (outcome_model(r) == Option::Some(HintErrorModel::MissingVariable)
                && final(frame).model() == old(frame).model()),
        },
{
    match &frame.os_input {
        Option::Some(o) => {
            let ghost pm = o.model().class_hash_to_compiled_class_hash;
            let mut dict: Vec<DictEntry> = Vec::new();
            let mut i: usize = 0;
            while i < o.class_hash_to_compiled_class_hash.len()
                invariant
                    i <= o.class_hash_to_compiled_class_hash@.len(),
                    pm == o.model().class_hash_to_compiled_class_hash,
                    pm.len() == o.class_hash_to_compiled_class_hash@.len(),
                    dict@.len() == i,
                    forall|j: int| 0 <= j < i ==> #[trigger] dict@[j].model()
                        == (DictEntryModel {
                        key: MemValModel::Int(pm[j].0),
                        value: MemValModel::Int(pm[j].1),
                    }),
                decreases o.class_hash_to_compiled_class_hash@.len() - i,
            {
                proof {
                    assert(pm[i as int] == (o.class_hash_to_compiled_class_hash@[i as int].0@,
                    o.class_hash_to_compiled_class_hash@[i as int].1@));
                }
                dict.push(
                    DictEntry {
                        key: CellVal::Int(o.class_hash_to_compiled_class_hash[i].0.clone()),
                        value: CellVal::Int(o.class_hash_to_compiled_class_hash[i].1.clone()),
                    },
                );
                i = i + 1;
            }
            proof {
                assert(dict@.map_values(|e: DictEntry| e.model()) =~= class_hash_dict(pm));
            }
            frame.initial_dict = Option::Some(dict);
            proof {
                assert(final(frame).model() =~= (ScopeFrameModel {
                    initial_dict: Option::Some(class_hash_dict(pm)),
                    ..old(frame).model()
                }));
            }
            Result::Ok(())
        },
        Option::None => Result::Err(HintError::MissingVariable),
    }
}

/// Push the per-batch syscall scope: the batch's transactions, the
/// deprecated class hashes and the dict manager move into a fresh frame.
/// The execution helper is threaded through the handlers directly, so it
/// needs no slot here.
pub fn enter_syscall_scopes(scopes: &mut Scopes) -> (r: HintOutcome)
    requires
        old(scopes).wf(),
    ensures
        final(scopes).wf(),
        match (old(scopes).cur().os_input, old(scopes).cur().deprecated_class_hashes) {
            (Option::Some(o), Option::Some(d)) => if old(scopes).cur().dict_manager {
                r is Ok && final(scopes).model() =~= old(scopes).model().push(
                    ScopeFrameModel {
                        os_input: Option::None,
                        input_path: Option::None,
                        transactions: Option::Some(o.transactions),
                        tx: Option::None,
                        deprecated_class_hashes: Option::Some(d),
                        dict_manager: true,
                        initial_dict: Option::None,
                        contract_state_changes: Option::None,
                        selected_builtins: Option::None,
                        is_deprecated_flag: Option::None,
                    },
                )
            } else {
                outcome_model(r) == Option::Some(HintErrorModel::MissingVariable)
                    && final(scopes).model() =~= old(scopes).model()
            },
            _ => (outcome_model(r) == Option::Some(HintErrorModel::MissingVariable)
                && final(scopes).model() =~= old(scopes).model()),
        },
{
    let frame = scopes.take_frame();
    let outcome: HintOutcome;
    let mut fresh = ScopeFrame::new_empty();
    let mut push_fresh = false;
    match (&frame.os_input, &frame.deprecated_class_hashes) {
        (Option::Some(o), Option::Some(d)) => {
            if frame.dict_manager {
                fresh.transactions = Option::Some(TxnStream::from_vec(crate::types::clone_txns(
                    &o.transactions,
                )));
                fresh.deprecated_class_hashes = Option::Some(clone_felts(d));
                fresh.dict_manager = true;
                push_fresh = true;
                outcome = Result::Ok(());
            } else {
                outcome = Result::Err(HintError::MissingVariable);
            }
        },
        _ => {
            outcome = Result::Err(HintError::MissingVariable);
        },
    }
    scopes.restore_frame(frame);
    if push_fresh {
        scopes.enter_scope(fresh);
    }
    proof {
        assert(old(scopes).model().drop_last().push(old(scopes).cur()) =~= old(scopes).model());
    }
    outcome
}

/// Pop the next transaction into the `tx` scope slot and write its type
/// name, encoded big-endian ASCII, to the `tx_type` operand.
pub fn load_next_tx(frame: &mut ScopeFrame, vm: &mut Vm) -> (r: HintOutcome)
    requires
        old(frame).wf(),
    ensures
        final(frame).wf(),
        match old(frame).model().transactions {
            Option::Some(txs) => if txs.len() == 0 {
                outcome_model(r) == Option::Some(HintErrorModel::TraceUnderflow) && final(frame).model() == old(frame).model() && final(vm).model() == old(vm).model()
            } else {
                final(frame).model() == (ScopeFrameModel {
                    transactions: Option::Some(txs.drop_first()),
                    tx: Option::Some(txs[0]),
                    ..old(frame).model()
                }) && (if 0 < vstd::utf8::encode_utf8(txs[0].tx_type).len() <= 31 {
                    r is Ok && final(vm).model() == (VmModel {
                        writes: old(vm).model().writes.push(
                            MemWriteModel {
                                dest: WriteDest::Operand(OperandName::TxType),
                                value: MemValModel::Int(
                                    strip_leading_zeros(vstd::utf8::encode_utf8(txs[0].tx_type)),
                                ),
                            },
                        ),
                        ..old(vm).model()
                    })
                } else {
                    outcome_model(r) == Option::Some(HintErrorModel::InvalidTypeName) && final(vm).model() == old(vm).model()
                })
            },
            Option::None => (outcome_model(r) == Option::Some(HintErrorModel::MissingVariable)
                && final(frame).model() == old(frame).model() && final(vm).model() == old(vm).model()),
        },
{
    match &mut frame.transactions {
        Option::Some(stream) => {
            if stream.is_exhausted() {
                return Result::Err(HintError::TraceUnderflow);
            }
            let tx = stream.next_item();
            let encoded = encode_str(tx.tx_type.as_str());
            frame.tx = Option::Some(tx);
            match encoded {
                Option::Some(f) => {
                    vm.write(WriteDest::Operand(OperandName::TxType), CellVal::Int(f));
                    Result::Ok(())
                },
                Option::None => Result::Err(HintError::InvalidTypeName),
            }
        },
        Option::None => Result::Err(HintError::MissingVariable),
    }
}

/// The writes that load a calldata vector into a fresh segment, one
/// felt per cell from the base up.
pub open spec fn calldata_writes(data: Seq<Seq<u8>>, seg: u64) -> Seq<MemWriteModel>
    decreases data.len(),
{
    if data.len() == 0 {
        Seq::empty()
    } else {
        calldata_writes(data.drop_last(), seg).push(
            MemWriteModel {
                dest: WriteDest::Mem(
                    Relocatable {
                        segment: SegmentId::Real(seg),
                        offset: (data.len() - 1) as u64,
                    },
                ),
                value: MemValModel::Int(data.last()),
            },
        )
    }
}

/// The constructor transaction's calldata, or none.
pub open spec fn tx_calldata(t: crate::types::TransactionModel) -> Seq<Seq<u8>> {
    match t.constructor_calldata {
        Option::Some(d) => d,
        Option::None => Seq::empty(),
    }
}

/// Write the deploy transaction's salt, class hash and calldata out: the
/// calldata goes to a fresh segment whose base lands in the
/// `constructor_calldata` operand.
pub fn prepare_constructor_execution(frame: &ScopeFrame, vm: &mut Vm) -> (r: HintOutcome)
    requires
        frame.wf(),
        old(vm).next_segment < u64::MAX,
        match frame.model().tx {
            Option::Some(t) => tx_calldata(t).len() <= u64::MAX,
            Option::None => true,
        },
    ensures
        match frame.model().tx {
            Option::Some(t) => match (t.contract_address_salt, t.contract_hash) {
                (Option::Some(salt), Option::Some(hash)) => (r is Ok && final(vm).model()
                    == (VmModel {
                    next_segment: (old(vm).next_segment + 1) as u64,
                    writes: old(vm).model().writes + seq![
                        MemWriteModel {
                            dest: WriteDest::Operand(OperandName::ContractAddressSalt),
                            value: MemValModel::Int(salt),
                        },
                        MemWriteModel {
                            dest: WriteDest::Operand(OperandName::ClassHash),
                            value: MemValModel::Int(hash),
                        },
                        MemWriteModel {
                            dest: WriteDest::Operand(OperandName::ConstructorCalldataSize),
                            value: MemValModel::Int(felt_of_u64(tx_calldata(t).len() as u64)),
                        },
                    ] + calldata_writes(tx_calldata(t), old(vm).next_segment).push(
                        MemWriteModel {
                            dest: WriteDest::Operand(OperandName::ConstructorCalldata),
                            value: MemValModel::Ptr(
                                Relocatable {
                                    segment: SegmentId::Real(old(vm).next_segment),
                                    offset: 0,
                                },
                            ),
                        },
                    ),
                    ..old(vm).model()
                })),
                (Option::None, _) => (outcome_model(r) == Option::Some(
                    HintErrorModel::MissingField(TxField::ContractAddressSalt),
                ) && final(vm).model() == old(vm).model()),
                (Option::Some(s), Option::None) => (outcome_model(r) == Option::Some(
                    HintErrorModel::MissingField(TxField::ContractHash),
                ) && final(vm).model() == old(vm).model()),
            },
            Option::None => (outcome_model(r) == Option::Some(HintErrorModel::MissingVariable)
                && final(vm).model() == old(vm).model()),
        },
{
    match &frame.tx {
        Option::Some(t) => {
            let salt = match &t.contract_address_salt {
                Option::Some(s) => s.clone(),
                Option::None => {
                    return Result::Err(HintError::MissingField(TxField::ContractAddressSalt));
                },
            };
            let hash = match &t.contract_hash {
                Option::Some(h) => h.clone(),
                Option::None => {
                    return Result::Err(HintError::MissingField(TxField::ContractHash));
                },
            };
            vm.write(WriteDest::Operand(OperandName::ContractAddressSalt), CellVal::Int(salt));
            vm.write(WriteDest::Operand(OperandName::ClassHash), CellVal::Int(hash));
            let ghost cd = tx_calldata(t.model());
            let size: usize = match &t.constructor_calldata {
                Option::Some(d) => d.len(),
                Option::None => 0,
            };
            vm.write(
                WriteDest::Operand(OperandName::ConstructorCalldataSize),
                CellVal::Int(Felt::from_u64(size as u64)),
            );
            let base = vm.add_segment();
            let ghost w0 = vm.model().writes;
            match &t.constructor_calldata {
                Option::Some(d) => {
                    let mut i: usize = 0;
                    while i < d.len()
                        invariant
                            i <= d@.len(),
                            cd.len() == d@.len(),
                            cd == d@.map_values(|f: Felt| f@),
                            base == (Relocatable {
                                segment: SegmentId::Real(old(vm).next_segment),
                                offset: 0,
                            }),
                            vm.next_segment == old(vm).next_segment + 1,
                            vm.next_temp_segment == old(vm).next_temp_segment,
                            vm.model().writes =~= w0 + calldata_writes(
                                cd.take(i as int),
                                old(vm).next_segment,
                            ),
                        decreases d@.len() - i,
                    {
                        vm.write(
                            WriteDest::Mem(
                                Relocatable { segment: base.segment, offset: i as u64 },
                            ),
                            CellVal::Int(d[i].clone()),
                        );
                        i = i + 1;
                        proof {
                            assert(cd.take(i as int).drop_last() =~= cd.take(i - 1));
                            assert(cd.take(i as int).last() == cd[i - 1]);
                            assert(vm.model().writes =~= w0 + calldata_writes(
                                cd.take(i as int),
                                old(vm).next_segment,
                            ));
                        }
                    }
                    proof {
                        assert(cd.take(cd.len() as int) =~= cd);
                    }
                },
                Option::None => {
                    proof {
                        assert(cd.take(0) =~= cd);
                    }
                },
            }
            vm.write(WriteDest::Operand(OperandName::ConstructorCalldata), CellVal::Ptr(base));
            proof {
                assert(final(vm).model().writes =~= old(vm).model().writes + seq![
                    MemWriteModel {
                        dest: WriteDest::Operand(OperandName::ContractAddressSalt),
                        value: MemValModel::Int(
                            frame.model().tx.unwrap().contract_address_salt.unwrap(),
                        ),
                    },
                    MemWriteModel {
                        dest: WriteDest::Operand(OperandName::ClassHash),
                        value: MemValModel::Int(frame.model().tx.unwrap().contract_hash.unwrap()),
                    },
                    MemWriteModel {
                        dest: WriteDest::Operand(OperandName::ConstructorCalldataSize),
                        value: MemValModel::Int(felt_of_u64(cd.len() as u64)),
                    },
                ] + calldata_writes(cd, old(vm).next_segment).push(
                    MemWriteModel {
                        dest: WriteDest::Operand(OperandName::ConstructorCalldata),
                        value: MemValModel::Ptr(
                            Relocatable {
                                segment: SegmentId::Real(old(vm).next_segment),
                                offset: 0,
                            },
                        ),
                    },
                ));
            }
            Result::Ok(())
        },
        Option::None => Result::Err(HintError::MissingVariable),
    }
}

/// Write the active transaction's version to ap.
pub fn transaction_version(frame: &ScopeFrame, vm: &mut Vm) -> (r: HintOutcome)
    requires
        frame.wf(),
    ensures
        match frame.model().tx {
            Option::Some(t) => match t.version {
                Option::Some(v) => (r is Ok && final(vm).model() == (VmModel {
                    writes: old(vm).model().writes.push(
                        MemWriteModel { dest: WriteDest::Ap, value: MemValModel::Int(v) },
                    ),
                    ..old(vm).model()
                })),
                Option::None => (outcome_model(r) == Option::Some(
                    HintErrorModel::MissingField(TxField::Version),
                ) && final(vm).model() == old(vm).model()),
            },
            Option::None => (outcome_model(r) == Option::Some(HintErrorModel::MissingVariable)
                && final(vm).model() == old(vm).model()),
        },
{
    match &frame.tx {
        Option::Some(t) => match &t.version {
            Option::Some(v) => {
                vm.write(WriteDest::Ap, CellVal::Int(v.clone()));
                Result::Ok(())
            },
            Option::None => Result::Err(HintError::MissingField(TxField::Version)),
        },
        Option::None => Result::Err(HintError::MissingVariable),
    }
}

/// Compare the hash the OS computed against the active transaction's
/// recorded hash; on mismatch fail, carrying both values.
pub fn assert_transaction_hash(frame: &ScopeFrame, transaction_hash: Felt) -> (r: HintOutcome)
    requires
        frame.wf(),
    ensures
        match frame.model().tx {
            Option::Some(t) => if t.hash_value == transaction_hash@ {
                r is Ok
            } else {
                outcome_model(r) == Option::Some(
                    HintErrorModel::HashMismatch {
                        computed: transaction_hash@,
                        expected: t.hash_value,
                    },
                )
            },
            Option::None => outcome_model(r) == Option::Some(HintErrorModel::MissingVariable),
        },
{
    match &frame.tx {
        Option::Some(t) => {
            if t.hash_value.eq_felt(&transaction_hash) {
                Result::Ok(())
            } else {
                Result::Err(
                    HintError::HashMismatch {
                        computed: transaction_hash,
                        expected: t.hash_value.clone(),
                    },
                )
            }
        },
        Option::None => Result::Err(HintError::MissingVariable),
    }
}

/// Open the next call of the helper's queue, checking the scope
/// discipline first: no call may already be open, its views must be
/// drained, and a call must remain in the queue.
pub fn enter_call(eh: &mut ExecutionHelper, execution_info_ptr: Option<Relocatable>) -> (r:
    HintOutcome)
    requires
        old(eh).wf(),
    ensures
        final(eh).wf(),
        ({
            let pre = old(eh).model();
            if pre.call_execution_info_ptr is Some || !old(eh).per_call_iters_exhausted()
                || pre.call_info is Some {
                outcome_model(r) == Option::Some(HintErrorModel::InvariantViolation) && final(eh).model() == pre
            } else if pre.call_queue.len() == 0 {
                outcome_model(r) == Option::Some(HintErrorModel::TraceUnderflow) && final(eh).model() == pre
            } else {
                r is Ok && final(eh).model() == (crate::helper::EhModel {
                    call_execution_info_ptr: execution_info_ptr,
                    call_queue: pre.call_queue.drop_first(),
                    call_info: Option::Some(pre.call_queue[0]),
                    deployed_contracts: crate::helper::deployed_of(pre.call_queue[0]),
                    results: crate::helper::results_of(pre.call_queue[0]),
                    storage_reads: pre.call_queue[0].storage_read_values,
                    ..pre
                })
            }
        }),
{
    if eh.call_execution_info_ptr.is_some() {
        return Result::Err(HintError::InvariantViolation);
    }
    if !eh.deployed_contracts_iter.is_exhausted() {
        return Result::Err(HintError::InvariantViolation);
    }
    if !eh.result_iter.is_exhausted() {
        return Result::Err(HintError::InvariantViolation);
    }
    if !eh.execute_code_read_iter.is_exhausted() {
        return Result::Err(HintError::InvariantViolation);
    }
    if eh.call_info.is_some() {
        return Result::Err(HintError::InvariantViolation);
    }
    if eh.call_iter.is_exhausted() {
        return Result::Err(HintError::TraceUnderflow);
    }
    eh.enter_call(execution_info_ptr);
    Result::Ok(())
}

/// Close the open call, checking that its three views are drained.
pub fn exit_call(eh: &mut ExecutionHelper) -> (r: HintOutcome)
    requires
        old(eh).wf(),
    ensures
        final(eh).wf(),
        ({
            let pre = old(eh).model();
            if !old(eh).per_call_iters_exhausted() || pre.call_info is None {
                outcome_model(r) == Option::Some(HintErrorModel::InvariantViolation) && final(eh).model() == pre
            } else {
                r is Ok && final(eh).model() == (crate::helper::EhModel {
                    call_execution_info_ptr: Option::None,
                    call_info: Option::None,
                    ..pre
                })
            }
        }),
{
    if !eh.deployed_contracts_iter.is_exhausted() {
        return Result::Err(HintError::InvariantViolation);
    }
    if !eh.result_iter.is_exhausted() {
        return Result::Err(HintError::InvariantViolation);
    }
    if !eh.execute_code_read_iter.is_exhausted() {
        return Result::Err(HintError::InvariantViolation);
    }
    if eh.call_info.is_none() {
        return Result::Err(HintError::InvariantViolation);
    }
    eh.exit_call();
    Result::Ok(())
}

/// Whether a felt occurs in a vector.
pub fn felt_vec_contains(v: &Vec<Felt>, x: &Felt) -> (r: bool)
    ensures
        r == v@.map_values(|f: Felt| f@).contains(x@),
{
    let ghost m = v@.map_values(|f: Felt| f@);
    let mut i: usize = 0;
    while i < v.len()
        invariant
            i <= v@.len(),
            m == v@.map_values(|f: Felt| f@),
            m.len() == v@.len(),
            forall|j: int| 0 <= j < i ==> m[j] != x@,
        decreases v@.len() - i,
    {
        if v[i].eq_felt(x) {
            proof {
                assert(m[i as int] == x@);
                assert(m.contains(x@));
            }
            return true;
        }
        i = i + 1;
    }
    proof {
        assert_by_contradiction!(!m.contains(x@), {
            let j = choose|j: int| 0 <= j < m.len() && m[j] == x@;
            assert(m[j] != x@);
        });
    }
    false
}

/// Record in scope whether the class hash at hand is a deprecated one.
pub fn check_is_deprecated(frame: &mut ScopeFrame, class_hash: &Felt) -> (r: HintOutcome)
    requires
        old(frame).wf(),
    ensures
        final(frame).wf(),
        match old(frame).model().deprecated_class_hashes {
            Option::Some(d) => (r is Ok && final(frame).model() == (ScopeFrameModel {
                is_deprecated_flag: Option::Some(d.contains(class_hash@)),
                ..old(frame).model()
            })),
            Option::None => (outcome_model(r) == Option::Some(HintErrorModel::MissingVariable)
                && final(frame).model() == old(frame).model()),
        },
{
    match &frame.deprecated_class_hashes {
        Option::Some(d) => {
            let found = felt_vec_contains(d, class_hash);
            frame.is_deprecated_flag = Option::Some(found);
            proof {
                assert(final(frame).model() =~= (ScopeFrameModel {
                    is_deprecated_flag: Option::Some(
                        old(frame).model().deprecated_class_hashes.unwrap().contains(class_hash@),
                    ),
                    ..old(frame).model()
                }));
            }
            Result::Ok(())
        },
        Option::None => Result::Err(HintError::MissingVariable),
    }
}

/// The flag cell a boolean writes: one or zero.
pub open spec fn bool_felt(b: bool) -> Seq<u8> {
    if b {
        seq![1u8]
    } else {
        Seq::empty()
    }
}

/// Write the recorded deprecation flag to ap.
pub fn is_deprecated(frame: &ScopeFrame, vm: &mut Vm) -> (r: HintOutcome)
    requires
        frame.wf(),
    ensures
        match frame.model().is_deprecated_flag {
            Option::Some(b) => (r is Ok && final(vm).model() == (VmModel {
                writes: old(vm).model().writes.push(
                    MemWriteModel { dest: WriteDest::Ap, value: MemValModel::Int(bool_felt(b)) },
                ),
                ..old(vm).model()
            })),
            Option::None => (outcome_model(r) == Option::Some(HintErrorModel::MissingVariable)
                && final(vm).model() == old(vm).model()),
        },
{
    match &frame.is_deprecated_flag {
        Option::Some(b) => {
            let f = if *b {
                Felt::one()
            } else {
                Felt::zero()
            };
            vm.write(WriteDest::Ap, CellVal::Int(f));
            Result::Ok(())
        },
        Option::None => Result::Err(HintError::MissingVariable),
    }
}

/// Allocate the two segments of the OS execution context.
pub fn os_context_segments(vm: &mut Vm) -> (r: HintOutcome)
    requires
        old(vm).next_segment + 2 <= u64::MAX,
    ensures
        r is Ok,
        final(vm).model() == (VmModel {
            next_segment: (old(vm).next_segment + 2) as u64,
            ..old(vm).model()
        }),
{
    let first = vm.add_segment();
    let second = vm.add_segment();
    Result::Ok(())
}

/// Enter the builtin-selection scope: remember the selected builtins and
/// write their count to ap.
pub fn selected_builtins(selected: Vec<Felt>, scopes: &mut Scopes, vm: &mut Vm) -> (r: HintOutcome)
    requires
        old(scopes).wf(),
        selected@.len() <= u64::MAX,
    ensures
        r is Ok,
        final(scopes).wf(),
        final(scopes).model() =~= old(scopes).model().push(
            ScopeFrameModel {
                os_input: Option::None,
                input_path: Option::None,
                transactions: Option::None,
                tx: Option::None,
                deprecated_class_hashes: Option::None,
                dict_manager: false,
                initial_dict: Option::None,
                contract_state_changes: Option::None,
                selected_builtins: Option::Some(selected@.map_values(|f: Felt| f@)),
                is_deprecated_flag: Option::None,
            },
        ),
        final(vm).model() == (VmModel {
            writes: old(vm).model().writes.push(
                MemWriteModel {
                    dest: WriteDest::Ap,
                    value: MemValModel::Int(felt_of_u64(selected@.len() as u64)),
                },
            ),
            ..old(vm).model()
        }),
{
    let n: usize = selected.len();
    let mut fresh = ScopeFrame::new_empty();
    fresh.selected_builtins = Option::Some(selected);
    scopes.enter_scope(fresh);
    vm.write(WriteDest::Ap, CellVal::Int(Felt::from_u64(n as u64)));
    Result::Ok(())
}

/// Tell the OS whether the builtin at hand was selected: if it heads the
/// remembered list, write one to ap and consume it; else write zero.
pub fn select_builtin(frame: &mut ScopeFrame, requested: &Felt, vm: &mut Vm) -> (r: HintOutcome)
    requires
        old(frame).wf(),
    ensures
        final(frame).wf(),
        match old(frame).model().selected_builtins {
            Option::Some(sel) => (r is Ok && ({
                let hit = sel.len() > 0 && sel[0] == requested@;
                final(frame).model() == (ScopeFrameModel {
                    selected_builtins: Option::Some(
                        if hit {
                            sel.drop_first()
                        } else {
                            sel
                        },
                    ),
                    ..old(frame).model()
                }) && final(vm).model() == (VmModel {
                    writes: old(vm).model().writes.push(
                        MemWriteModel {
                            dest: WriteDest::Ap,
                            value: MemValModel::Int(bool_felt(hit)),
                        },
                    ),
                    ..old(vm).model()
                })
            })),
            Option::None => (outcome_model(r) == Option::Some(HintErrorModel::MissingVariable)
                && final(frame).model() == old(frame).model() && final(vm).model() == old(vm).model()),
        },
{
    match &mut frame.selected_builtins {
        Option::Some(sel) => {
            let hit = if sel.len() > 0 {
                sel[0].eq_felt(requested)
            } else {
                false
            };
            if hit {
                let removed = sel.remove(0);
                proof {
                    assert(sel@.map_values(|f: Felt| f@) =~= old(frame).model().selected_builtins.unwrap().drop_first());
                }
            }
            let f = if hit {
                Felt::one()
            } else {
                Felt::zero()
            };
            vm.write(WriteDest::Ap, CellVal::Int(f));
            proof {
                assert(final(frame).model() =~= (ScopeFrameModel {
                    selected_builtins: Option::Some(
                        if old(frame).model().selected_builtins.unwrap().len() > 0 && old(frame).model().selected_builtins.unwrap()[0] == requested@ {
                            old(frame).model().selected_builtins.unwrap().drop_first()
                        } else {
                            old(frame).model().selected_builtins.unwrap()
                        },
                    ),
                    ..old(frame).model()
                }));
            }
            Result::Ok(())
        },
        Option::None => Result::Err(HintError::MissingVariable),
    }
}

/// Law: replaying a batch is idempotent in its effect on VM memory.
/// Every write stream a handler emits is stated as a function of the
/// handler's inputs and the machine's allocation counters alone — never
/// of the time, the environment, or an iteration order of a hash table —
/// so a second run over the same batch from the same initial machine
/// emits the identical writes.
pub proof fn lemma_replay_writes_deterministic(
    c1: Seq<(Seq<u8>, ContractStateModel)>,
    c2: Seq<(Seq<u8>, ContractStateModel)>,
    b1: int,
    b2: int,
    d1: Seq<Seq<u8>>,
    d2: Seq<Seq<u8>>,
    s1: u64,
    s2: u64,
    p1: Relocatable,
    p2: Relocatable,
    t1: u64,
    t2: u64,
)
    requires
        c1 == c2,
        b1 == b2,
        d1 == d2,
        s1 == s2,
        p1 == p2,
        t1 == t2,
    ensures
        state_change_writes(c1, b1) == state_change_writes(c2, b2),
        calldata_writes(d1, s1) == calldata_writes(d2, s2),
        os_input_writes(p1, t1) == os_input_writes(p2, t2),
{
}

/// The first value a dictionary holds under a key.
pub open spec fn assoc_lookup(entries: Seq<DictEntryModel>, key: MemValModel) -> Option<
    MemValModel,
>
    decreases entries.len(),
{
    if entries.len() == 0 {
        Option::None
    } else if entries[0].key == key {
        Option::Some(entries[0].value)
    } else {
        assoc_lookup(entries.drop_first(), key)
    }
}

/// Fetch the state entry recorded for a contract address and write its
/// pointer to the `state_entry` operand.
pub fn get_state_entry(frame: &ScopeFrame, contract_address: &Felt, vm: &mut Vm) -> (r:
    HintOutcome)
    requires
        frame.wf(),
    ensures
        frame.model().contract_state_changes is Some ==> ({
            let looked = assoc_lookup(
                frame.model().contract_state_changes.unwrap(),
                MemValModel::Int(contract_address@),
            );
            &&& looked is Some ==> (r is Ok && final(vm).model() == (VmModel {
                writes: old(vm).model().writes.push(
                    MemWriteModel {
                        dest: WriteDest::Operand(OperandName::StateEntry),
                        value: looked.unwrap(),
                    },
                ),
                ..old(vm).model()
            }))
            &&& looked is None ==> (outcome_model(r) == Option::Some(
                HintErrorModel::KeyNotFound,
            ) && final(vm).model() == old(vm).model())
        }),
        frame.model().contract_state_changes is None ==> (outcome_model(r) == Option::Some(
            HintErrorModel::MissingVariable,
        ) && final(vm).model() == old(vm).model()),
{
    match &frame.contract_state_changes {
        Option::Some(entries) => {
            let ghost em = entries@.map_values(|e: DictEntry| e.model());
            let ghost key = MemValModel::Int(contract_address@);
            proof {
                assert(em.skip(0) =~= em);
                assert(frame.model().contract_state_changes == Option::Some(em));
            }
            let mut i: usize = 0;
            while i < entries.len()
                invariant
                    i <= entries@.len(),
                    em == entries@.map_values(|e: DictEntry| e.model()),
                    em.len() == entries@.len(),
                    key == MemValModel::Int(contract_address@),
                    frame.model().contract_state_changes == Option::Some(em),
                    vm.model() == old(vm).model(),
                    assoc_lookup(em, key) == assoc_lookup(em.skip(i as int), key),
                decreases entries@.len() - i,
            {
                let hit = match &entries[i].key {
                    CellVal::Int(k) => k.eq_felt(contract_address),
                    CellVal::Ptr(p) => false,
                };
                proof {
                    assert(em[i as int] == entries@[i as int].model());
                    assert(em.skip(i as int)[0] == em[i as int]);
                    assert(hit == (em[i as int].key == key));
                }
                if hit {
                    let v = entries[i].value.duplicate();
                    proof {
                        assert(assoc_lookup(em.skip(i as int), key) == Option::Some(
                            em[i as int].value,
                        ));
                    }
                    vm.write(WriteDest::Operand(OperandName::StateEntry), v);
                    return Result::Ok(());
                }
                proof {
                    assert(em.skip(i as int).drop_first() =~= em.skip(i + 1));
                    assert(assoc_lookup(em.skip(i as int), key) == assoc_lookup(
                        em.skip(i + 1),
                        key,
                    ));
                }
                i = i + 1;
            }
            proof {
                assert(em.skip(em.len() as int).len() == 0);
                assert(assoc_lookup(em, key) is None);
            }
            Result::Err(HintError::KeyNotFound)
        },
        Option::None => Result::Err(HintError::MissingVariable),
    }
}

} // verus!
