//! The data the replay logic reads: call trees, transaction records, the
//! block context and the OS input blob, all as plain values.
//!
//! Each executable type has a ghost model (`..Model`) over `Seq` and plain
//! scalars; contracts speak of models, so that a clone and its original
//! satisfy the same statements.

use vstd::prelude::*;
use crate::felt::Felt;

verus! {

broadcast use vstd::std_specs::vec::group_vec_axioms;

/// The kind of entry point a call went through.
#[derive(Clone, Copy, PartialEq, Eq, Structural, Debug)]
pub enum EntryPointType {
    External,
    L1Handler,
    Constructor,
}

/// What a finished call handed back: failure flag, return data, gas.
#[verifier::ext_equal]
pub ghost struct CallResultModel {
    pub failed: bool,
    pub retdata: Seq<Seq<u8>>,
    pub gas_consumed: u64,
}

/// One node of a call tree, with its whole subtree.
#[verifier::ext_equal]
pub ghost struct CallModel {
    pub caller_address: Seq<u8>,
    pub entry_point_type: EntryPointType,
    pub storage_read_values: Seq<Seq<u8>>,
    pub result: CallResultModel,
    pub inner_calls: Seq<CallModel>,
}

/// Result of one call, as the OS program consumes it.
pub struct CallResult {
    pub failed: bool,
    pub retdata: Vec<Felt>,
    pub gas_consumed: u64,
}

impl CallResult {
    pub open spec fn model(self) -> CallResultModel {
        CallResultModel {
            failed: self.failed,
            retdata: self.retdata@.map_values(|f: Felt| f@),
            gas_consumed: self.gas_consumed,
        }
    }
}

/// The record of one executed contract call: descriptor, result, storage
/// reads, and the calls it made in turn.
pub struct CallInfo {
    pub caller_address: Felt,
    pub entry_point_type: EntryPointType,
    pub storage_read_values: Vec<Felt>,
    pub result: CallResult,
    pub inner_calls: Vec<CallInfo>,
}

/// The models of a sequence of call nodes, in order.
pub open spec fn call_models(s: Seq<CallInfo>) -> Seq<CallModel>
    decreases s, 0int,
{
    if s.len() == 0 {
        Seq::empty()
    } else {
        seq![s[0].model()] + call_models(s.drop_first())
    }
}

impl CallInfo {
    pub open spec fn model(self) -> CallModel
        decreases self, 1int,
    {
        CallModel {
            caller_address: self.caller_address@,
            entry_point_type: self.entry_point_type,
            storage_read_values: self.storage_read_values@.map_values(|f: Felt| f@),
            result: self.result.model(),
            inner_calls: call_models(self.inner_calls@),
        }
    }
}

/// `call_models` taken pointwise.
pub proof fn lemma_call_models_index(s: Seq<CallInfo>)
    ensures
        call_models(s).len() == s.len(),
        forall|i: int| 0 <= i < s.len() ==> #[trigger] call_models(s)[i] == s[i].model(),
    decreases s.len(),
{
    if s.len() > 0 {
        lemma_call_models_index(s.drop_first());
        assert forall|i: int| 0 <= i < s.len() implies #[trigger] call_models(s)[i] == s[i].model() by {
            if i > 0 {
                assert(call_models(s)[i] == call_models(s.drop_first())[i - 1]);
                assert(s.drop_first()[i - 1] == s[i]);
            }
        }
    }
}

/// A fresh vector holding the same felts.
pub fn clone_felts(v: &Vec<Felt>) -> (r: Vec<Felt>)
    ensures
        r@.map_values(|f: Felt| f@) =~= v@.map_values(|f: Felt| f@),
{
    let mut out: Vec<Felt> = Vec::new();
    let mut i: usize = 0;
    while i < v.len()
        invariant
            i <= v@.len(),
            out@.len() == i,
            forall|j: int| 0 <= j < i ==> #[trigger] out@[j]@ == v@[j]@,
        decreases v@.len() - i,
    {
        out.push(v[i].clone());
        i = i + 1;
    }
    proof {
        assert(out@.map_values(|f: Felt| f@) =~= v@.map_values(|f: Felt| f@));
    }
    out
}

impl CallResult {
    pub fn duplicate(&self) -> (r: CallResult)
        ensures
            r.model() == self.model(),
    {
        CallResult {
            failed: self.failed,
            retdata: clone_felts(&self.retdata),
            gas_consumed: self.gas_consumed,
        }
    }
}

impl CallInfo {
    pub fn duplicate(&self) -> (r: CallInfo)
        ensures
            r.model() == self.model(),
        decreases *self,
    {
        let mut inner: Vec<CallInfo> = Vec::new();
        let mut i: usize = 0;
        while i < self.inner_calls.len()
            invariant
                i <= self.inner_calls@.len(),
                inner@.len() == i,
                forall|j: int| 0 <= j < i ==> #[trigger] inner@[j].model() == self.inner_calls@[j].model(),
            decreases self.inner_calls@.len() - i,
        {
            let c = self.inner_calls[i].duplicate();
            inner.push(c);
            i = i + 1;
        }
        proof {
            lemma_call_models_index(inner@);
            lemma_call_models_index(self.inner_calls@);
            assert(call_models(inner@) =~= call_models(self.inner_calls@));
        }
        CallInfo {
            caller_address: self.caller_address.clone(),
            entry_point_type: self.entry_point_type,
            storage_read_values: clone_felts(&self.storage_read_values),
            result: self.result.duplicate(),
            inner_calls: inner,
        }
    }
}

/// The model of an optional call tree, duplicated.
pub fn dup_opt_call(o: &Option<CallInfo>) -> (r: Option<CallInfo>)
    ensures
        opt_call_model(r) == opt_call_model(*o),
{
    match o {
        Option::Some(c) => Option::Some(c.duplicate()),
        Option::None => Option::None,
    }
}

/// The three call trees the executor recorded for one transaction.
#[verifier::ext_equal]
pub ghost struct TxExecInfoModel {
    pub validate_call_info: Option<CallModel>,
    pub execute_call_info: Option<CallModel>,
    pub fee_transfer_call_info: Option<CallModel>,
}

/// What the transaction executor produced for one transaction: up to three
/// call trees, in the fixed order validate, execute, fee transfer.
pub struct TxExecInfo {
    pub validate_call_info: Option<CallInfo>,
    pub execute_call_info: Option<CallInfo>,
    pub fee_transfer_call_info: Option<CallInfo>,
}

pub open spec fn opt_call_model(o: Option<CallInfo>) -> Option<CallModel> {
    match o {
        Option::Some(c) => Option::Some(c.model()),
        Option::None => Option::None,
    }
}

impl TxExecInfo {
    pub open spec fn model(self) -> TxExecInfoModel {
        TxExecInfoModel {
            validate_call_info: opt_call_model(self.validate_call_info),
            execute_call_info: opt_call_model(self.execute_call_info),
            fee_transfer_call_info: opt_call_model(self.fee_transfer_call_info),
        }
    }

    pub fn duplicate(&self) -> (r: TxExecInfo)
        ensures
            r.model() == self.model(),
    {
        TxExecInfo {
            validate_call_info: dup_opt_call(&self.validate_call_info),
            execute_call_info: dup_opt_call(&self.execute_call_info),
            fee_transfer_call_info: dup_opt_call(&self.fee_transfer_call_info),
        }
    }
}

/// The block header fields the OS program asks for.
#[verifier::ext_equal]
pub ghost struct BlockContextModel {
    pub block_number: u64,
    pub block_timestamp: u64,
    pub sequencer_address: Seq<u8>,
    pub chain_id: Seq<u8>,
    pub fee_token_address: Seq<u8>,
}

pub struct BlockContext {
    pub block_number: u64,
    pub block_timestamp: u64,
    pub sequencer_address: Felt,
    pub chain_id: Felt,
    pub fee_token_address: Felt,
}

impl BlockContext {
    pub open spec fn model(self) -> BlockContextModel {
        BlockContextModel {
            block_number: self.block_number,
            block_timestamp: self.block_timestamp,
            sequencer_address: self.sequencer_address@,
            chain_id: self.chain_id@,
            fee_token_address: self.fee_token_address@,
        }
    }

    pub fn duplicate(&self) -> (r: BlockContext)
        ensures
            r.model() == self.model(),
    {
        BlockContext {
            block_number: self.block_number,
            block_timestamp: self.block_timestamp,
            sequencer_address: self.sequencer_address.clone(),
            chain_id: self.chain_id.clone(),
            fee_token_address: self.fee_token_address.clone(),
        }
    }
}

/// One transaction of the input blob, as the loader hands it over.
#[verifier::ext_equal]
pub ghost struct TransactionModel {
    pub tx_type: Seq<char>,
    pub version: Option<Seq<u8>>,
    pub hash_value: Seq<u8>,
    pub contract_address_salt: Option<Seq<u8>>,
    pub contract_hash: Option<Seq<u8>>,
    pub constructor_calldata: Option<Seq<Seq<u8>>>,
}

pub struct InternalTransaction {
    pub tx_type: String,
    pub version: Option<Felt>,
    pub hash_value: Felt,
    pub contract_address_salt: Option<Felt>,
    pub contract_hash: Option<Felt>,
    pub constructor_calldata: Option<Vec<Felt>>,
}

pub open spec fn opt_felt_model(o: Option<Felt>) -> Option<Seq<u8>> {
    match o {
        Option::Some(f) => Option::Some(f@),
        Option::None => Option::None,
    }
}

impl InternalTransaction {
    pub open spec fn model(self) -> TransactionModel {
        TransactionModel {
            tx_type: self.tx_type@,
            version: opt_felt_model(self.version),
            hash_value: self.hash_value@,
            contract_address_salt: opt_felt_model(self.contract_address_salt),
            contract_hash: opt_felt_model(self.contract_hash),
            constructor_calldata: match self.constructor_calldata {
                Option::Some(v) => Option::Some(v@.map_values(|f: Felt| f@)),
                Option::None => Option::None,
            },
        }
    }
}

/// A fresh option holding the same felt.
pub fn dup_opt_felt(o: &Option<Felt>) -> (r: Option<Felt>)
    ensures
        opt_felt_model(r) == opt_felt_model(*o),
{
    match o {
        Option::Some(f) => Option::Some(f.clone()),
        Option::None => Option::None,
    }
}

impl InternalTransaction {
    pub fn duplicate(&self) -> (r: InternalTransaction)
        ensures
            r.model() == self.model(),
    {
        let calldata = match &self.constructor_calldata {
            Option::Some(v) => Option::Some(clone_felts(v)),
            Option::None => Option::None,
        };
        let r = InternalTransaction {
            tx_type: self.tx_type.clone(),
            version: dup_opt_felt(&self.version),
            hash_value: self.hash_value.clone(),
            contract_address_salt: dup_opt_felt(&self.contract_address_salt),
            contract_hash: dup_opt_felt(&self.contract_hash),
            constructor_calldata: calldata,
        };
        r
    }
}

/// A fresh vector holding the same transactions.
pub fn clone_txns(v: &Vec<InternalTransaction>) -> (r: Vec<InternalTransaction>)
    ensures
        r@.map_values(|t: InternalTransaction| t.model()) =~= v@.map_values(
            |t: InternalTransaction| t.model(),
        ),
{
    let mut out: Vec<InternalTransaction> = Vec::new();
    let mut i: usize = 0;
    while i < v.len()
        invariant
            i <= v@.len(),
            out@.len() == i,
            forall|j: int| 0 <= j < i ==> #[trigger] out@[j].model() == v@[j].model(),
        decreases v@.len() - i,
    {
        out.push(v[i].duplicate());
        i = i + 1;
    }
    proof {
        assert(out@.map_values(|t: InternalTransaction| t.model()) =~= v@.map_values(
            |t: InternalTransaction| t.model(),
        ));
    }
    out
}

/// The persistent facts the OS knows of one contract.
#[verifier::ext_equal]
pub ghost struct ContractStateModel {
    pub contract_hash: Seq<u8>,
    pub nonce: Seq<u8>,
}

pub struct ContractState {
    pub contract_hash: Felt,
    pub nonce: Felt,
}

impl ContractState {
    pub open spec fn model(self) -> ContractStateModel {
        ContractStateModel { contract_hash: self.contract_hash@, nonce: self.nonce@ }
    }
}

/// The OS input blob: contract facts, class-hash map, the transaction
/// batch and the block context.
#[verifier::ext_equal]
pub ghost struct OsInputModel {
    pub contracts: Seq<(Seq<u8>, ContractStateModel)>,
    pub class_hash_to_compiled_class_hash: Seq<(Seq<u8>, Seq<u8>)>,
    pub transactions: Seq<TransactionModel>,
    pub block_context: BlockContextModel,
}

pub struct OsInput {
    pub contracts: Vec<(Felt, ContractState)>,
    pub class_hash_to_compiled_class_hash: Vec<(Felt, Felt)>,
    pub transactions: Vec<InternalTransaction>,
    pub block_context: BlockContext,
}

impl OsInput {
    pub open spec fn model(self) -> OsInputModel {
        OsInputModel {
            contracts: self.contracts@.map_values(
                |p: (Felt, ContractState)| (p.0@, p.1.model()),
            ),
            class_hash_to_compiled_class_hash: self.class_hash_to_compiled_class_hash@.map_values(
                |p: (Felt, Felt)| (p.0@, p.1@),
            ),
            transactions: self.transactions@.map_values(|t: InternalTransaction| t.model()),
            block_context: self.block_context.model(),
        }
    }
}

} // verus!
