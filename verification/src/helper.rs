//! The execution helper: a mutable cursor over a batch's execution trace.
//!
//! It replays, in strict order, the call trees the transaction executor
//! recorded: transactions front to back, and within each transaction the
//! pre-order flattening of its validate, execute and fee-transfer trees.
//! Each scope (transaction, call) must be fully consumed before it closes.

use vstd::prelude::*;
use crate::felt::Felt;
use crate::types::{
    CallInfo, CallModel, CallResult, CallResultModel, BlockContext, BlockContextModel,
    EntryPointType, TxExecInfo, TxExecInfoModel, call_models, lemma_call_models_index,
};
use crate::vm::Relocatable;
use crate::STORED_BLOCK_HASH_BUFFER;

verus! {

broadcast use vstd::std_specs::vec::group_vec_axioms;

/// Pre-order flattening of one call tree: the node, then its inner calls,
/// each flattened in turn.
pub open spec fn flatten_node(c: CallModel) -> Seq<CallModel>
    decreases c, 1int,
{
    seq![c] + flatten_nodes(c.inner_calls)
}

/// Pre-order flattening of a forest, left to right.
pub open spec fn flatten_nodes(s: Seq<CallModel>) -> Seq<CallModel>
    decreases s, 0int,
{
    if s.len() == 0 {
        Seq::empty()
    } else {
        flatten_node(s[0]) + flatten_nodes(s.drop_first())
    }
}

pub proof fn lemma_flatten_nodes_push(s: Seq<CallModel>, x: CallModel)
    ensures
        flatten_nodes(s.push(x)) =~= flatten_nodes(s) + flatten_node(x),
    decreases s.len(),
{
    if s.len() == 0 {
        assert(s.push(x)[0] == x);
        assert(s.push(x).drop_first() =~= Seq::<CallModel>::empty());
        assert(flatten_nodes(s.push(x)) == flatten_node(x) + flatten_nodes(
            s.push(x).drop_first(),
        ));
        assert(flatten_nodes(s.push(x).drop_first()) =~= Seq::<CallModel>::empty());
        assert(flatten_nodes(s) =~= Seq::<CallModel>::empty());
        assert(flatten_nodes(s.push(x)) =~= flatten_nodes(s) + flatten_node(x));
    } else {
        assert(s.push(x)[0] == s[0]);
        assert(s.push(x).drop_first() =~= s.drop_first().push(x));
        lemma_flatten_nodes_push(s.drop_first(), x);
        assert(flatten_nodes(s.push(x)) == flatten_node(s[0]) + flatten_nodes(
            s.drop_first().push(x),
        ));
        assert(flatten_nodes(s.drop_first().push(x)) == flatten_nodes(s.drop_first())
            + flatten_node(x));
        assert(flatten_nodes(s) == flatten_node(s[0]) + flatten_nodes(s.drop_first()));
        assert(flatten_node(s[0]) + (flatten_nodes(s.drop_first()) + flatten_node(x))
            =~= (flatten_node(s[0]) + flatten_nodes(s.drop_first())) + flatten_node(x));
    }
}

/// What a call tree rooted at an absent node contributes: nothing.
pub open spec fn opt_flatten(o: Option<CallModel>) -> Seq<CallModel> {
    match o {
        Option::Some(c) => flatten_node(c),
        Option::None => Seq::empty(),
    }
}

/// The full call queue of one transaction: validate, then execute, then
/// fee transfer, each flattened pre-order.
pub open spec fn tx_call_sequence(t: TxExecInfoModel) -> Seq<CallModel> {
    opt_flatten(t.validate_call_info) + opt_flatten(t.execute_call_info)
        + opt_flatten(t.fee_transfer_call_info)
}

impl CallInfo {
    /// Append the pre-order flattening of this subtree to `out`.
    pub fn gen_call_topology(&self, out: &mut Vec<CallInfo>)
        ensures
            call_models(final(out)@) =~= call_models(old(out)@) + flatten_node(self.model()),
        decreases *self,
    {
        let ghost base = old(out)@;
        let dup = self.duplicate();
        out.push(dup);
        proof {
            lemma_call_models_index(base.push(dup));
            lemma_call_models_index(base);
            assert(call_models(out@) =~= call_models(base) + seq![self.model()]);
        }
        let ghost inner_models = call_models(self.inner_calls@);
        proof {
            lemma_call_models_index(self.inner_calls@);
        }
        let mut i: usize = 0;
        while i < self.inner_calls.len()
            invariant
                i <= self.inner_calls@.len(),
                inner_models == call_models(self.inner_calls@),
                inner_models.len() == self.inner_calls@.len(),
                forall|j: int| 0 <= j < self.inner_calls@.len()
                    ==> #[trigger] inner_models[j] == self.inner_calls@[j].model(),
                call_models(out@) =~= call_models(base) + seq![self.model()]
                    + flatten_nodes(inner_models.take(i as int)),
            decreases self.inner_calls@.len() - i,
        {
            self.inner_calls[i].gen_call_topology(out);
            proof {
                assert(inner_models.take(i + 1) =~= inner_models.take(i as int).push(
                    inner_models[i as int],
                ));
                lemma_flatten_nodes_push(inner_models.take(i as int), inner_models[i as int]);
            }
            i = i + 1;
        }
        proof {
            assert(inner_models.take(self.inner_calls@.len() as int) =~= inner_models);
            assert(self.model().inner_calls == inner_models);
            assert(flatten_node(self.model()) =~= seq![self.model()] + flatten_nodes(inner_models));
        }
    }
}

impl TxExecInfo {
    /// The transaction's call queue: its non-optional call trees in the
    /// fixed order, each flattened pre-order, parent before children.
    pub fn gen_call_iterator(&self) -> (r: Vec<CallInfo>)
        ensures
            call_models(r@) =~= tx_call_sequence(self.model()),
    {
        let mut out: Vec<CallInfo> = Vec::new();
        proof {
            lemma_call_models_index(out@);
            assert(call_models(out@) =~= Seq::<CallModel>::empty());
        }
        match &self.validate_call_info {
            Option::Some(c) => c.gen_call_topology(&mut out),
            Option::None => {},
        }
        proof {
            assert(call_models(out@) =~= opt_flatten(self.model().validate_call_info));
        }
        match &self.execute_call_info {
            Option::Some(c) => c.gen_call_topology(&mut out),
            Option::None => {},
        }
        proof {
            assert(call_models(out@) =~= opt_flatten(self.model().validate_call_info)
                + opt_flatten(self.model().execute_call_info));
        }
        match &self.fee_transfer_call_info {
            Option::Some(c) => c.gen_call_topology(&mut out),
            Option::None => {},
        }
        proof {
            assert(call_models(out@) =~= tx_call_sequence(self.model()));
        }
        out
    }
}

/// A cursor over the batch's transactions.
pub struct TxStream {
    pub items: Vec<TxExecInfo>,
    pub next: usize,
}

impl TxStream {
    pub open spec fn wf(&self) -> bool {
        self.next <= self.items@.len()
    }

    /// The transactions not yet consumed, front first.
    pub open spec fn remaining(&self) -> Seq<TxExecInfoModel> {
        self.items@.map_values(|t: TxExecInfo| t.model()).skip(self.next as int)
    }

    pub fn from_vec(items: Vec<TxExecInfo>) -> (r: TxStream)
        ensures
            r.wf(),
            r.remaining() =~= items@.map_values(|t: TxExecInfo| t.model()),
    {
        TxStream { items, next: 0 }
    }

    pub fn is_exhausted(&self) -> (r: bool)
        requires
            self.wf(),
        ensures
            r == (self.remaining().len() == 0),
    {
        self.next == self.items.len()
    }

    pub fn next_item(&mut self) -> (r: TxExecInfo)
        requires
            old(self).wf(),
            old(self).remaining().len() > 0,
        ensures
            final(self).wf(),
            r.model() == old(self).remaining()[0],
            final(self).remaining() =~= old(self).remaining().drop_first(),
    {
        let r = self.items[self.next].duplicate();
        let n: usize = self.items.len();
        proof {
            assert(self.next < n);
        }
        self.next = self.next + 1;
        proof {
            assert(self.remaining() =~= old(self).remaining().drop_first());
        }
        r
    }
}

/// A cursor over the active transaction's flattened call queue.
pub struct CallStream {
    pub items: Vec<CallInfo>,
    pub next: usize,
}

impl CallStream {
    pub open spec fn wf(&self) -> bool {
        self.next <= self.items@.len()
    }

    /// The calls not yet opened, front first.
    pub open spec fn remaining(&self) -> Seq<CallModel> {
        call_models(self.items@).skip(self.next as int)
    }

    pub fn empty() -> (r: CallStream)
        ensures
            r.wf(),
            r.remaining() =~= Seq::<CallModel>::empty(),
    {
        let r = CallStream { items: Vec::new(), next: 0 };
        proof {
            lemma_call_models_index(r.items@);
        }
        r
    }

    pub fn from_vec(items: Vec<CallInfo>) -> (r: CallStream)
        ensures
            r.wf(),
            r.remaining() =~= call_models(items@),
    {
        let r = CallStream { items, next: 0 };
        proof {
            lemma_call_models_index(r.items@);
        }
        r
    }

    pub fn is_exhausted(&self) -> (r: bool)
        requires
            self.wf(),
        ensures
            r == (self.remaining().len() == 0),
    {
        proof {
            lemma_call_models_index(self.items@);
        }
        self.next == self.items.len()
    }

    pub fn next_item(&mut self) -> (r: CallInfo)
        requires
            old(self).wf(),
            old(self).remaining().len() > 0,
        ensures
            final(self).wf(),
            r.model() == old(self).remaining()[0],
            final(self).remaining() =~= old(self).remaining().drop_first(),
    {
        proof {
            lemma_call_models_index(self.items@);
        }
        let r = self.items[self.next].duplicate();
        let n: usize = self.items.len();
        proof {
            assert(self.next < n);
        }
        self.next = self.next + 1;
        proof {
            assert(self.remaining() =~= old(self).remaining().drop_first());
        }
        r
    }
}

/// A cursor over a sequence of felts.
pub struct FeltStream {
    pub items: Vec<Felt>,
    pub next: usize,
}

impl FeltStream {
    pub open spec fn wf(&self) -> bool {
        self.next <= self.items@.len()
    }

    pub open spec fn remaining(&self) -> Seq<Seq<u8>> {
        self.items@.map_values(|f: Felt| f@).skip(self.next as int)
    }

    pub fn empty() -> (r: FeltStream)
        ensures
            r.wf(),
            r.remaining() =~= Seq::<Seq<u8>>::empty(),
    {
        FeltStream { items: Vec::new(), next: 0 }
    }

    pub fn from_vec(items: Vec<Felt>) -> (r: FeltStream)
        ensures
            r.wf(),
            r.remaining() =~= items@.map_values(|f: Felt| f@),
    {
        FeltStream { items, next: 0 }
    }

    pub fn is_exhausted(&self) -> (r: bool)
        requires
            self.wf(),
        ensures
            r == (self.remaining().len() == 0),
    {
        self.next == self.items.len()
    }

    pub fn next_item(&mut self) -> (r: Felt)
        requires
            old(self).wf(),
            old(self).remaining().len() > 0,
        ensures
            final(self).wf(),
            r@ == old(self).remaining()[0],
            final(self).remaining() =~= old(self).remaining().drop_first(),
    {
        let r = self.items[self.next].clone();
        let n: usize = self.items.len();
        proof {
            assert(self.next < n);
        }
        self.next = self.next + 1;
        proof {
            assert(self.remaining() =~= old(self).remaining().drop_first());
        }
        r
    }
}

/// A cursor over the results of the open call's inner calls.
pub struct ResultStream {
    pub items: Vec<CallResult>,
    pub next: usize,
}

impl ResultStream {
    pub open spec fn wf(&self) -> bool {
        self.next <= self.items@.len()
    }

    pub open spec fn remaining(&self) -> Seq<CallResultModel> {
        self.items@.map_values(|c: CallResult| c.model()).skip(self.next as int)
    }

    pub fn empty() -> (r: ResultStream)
        ensures
            r.wf(),
            r.remaining() =~= Seq::<CallResultModel>::empty(),
    {
        ResultStream { items: Vec::new(), next: 0 }
    }

    pub fn from_vec(items: Vec<CallResult>) -> (r: ResultStream)
        ensures
            r.wf(),
            r.remaining() =~= items@.map_values(|c: CallResult| c.model()),
    {
        ResultStream { items, next: 0 }
    }

    pub fn is_exhausted(&self) -> (r: bool)
        requires
            self.wf(),
        ensures
            r == (self.remaining().len() == 0),
    {
        self.next == self.items.len()
    }

    pub fn next_item(&mut self) -> (r: CallResult)
        requires
            old(self).wf(),
            old(self).remaining().len() > 0,
        ensures
            final(self).wf(),
            r.model() == old(self).remaining()[0],
            final(self).remaining() =~= old(self).remaining().drop_first(),
    {
        let r = self.items[self.next].duplicate();
        let n: usize = self.items.len();
        proof {
            assert(self.next < n);
        }
        self.next = self.next + 1;
        proof {
            assert(self.remaining() =~= old(self).remaining().drop_first());
        }
        r
    }
}

/// A queue after its front was taken `k` times, as `enter_call` takes it.
pub open spec fn drop_n(q: Seq<CallModel>, k: int) -> Seq<CallModel>
    decreases k,
{
    if k <= 0 || q.len() == 0 {
        q
    } else {
        drop_n(q.drop_first(), k - 1)
    }
}

pub proof fn lemma_drop_n_skip(q: Seq<CallModel>, k: int)
    requires
        0 <= k <= q.len(),
    ensures
        drop_n(q, k) =~= q.skip(k),
    decreases k,
{
    if k > 0 {
        lemma_drop_n_skip(q.drop_first(), k - 1);
        assert(q.drop_first().skip(k - 1) =~= q.skip(k));
    } else {
        assert(q.skip(0) =~= q);
    }
}

/// Law: the helper opens a transaction's calls in exactly the pre-order
/// flattening of its call trees. `start_tx` makes the queue
/// `tx_call_sequence`; each `enter_call` opens the queue's front and
/// keeps the rest, so the call opened after `k` earlier openings is
/// element `k` of the flattening, and `tx_call_sequence(t).len()`
/// openings drain the queue.
pub proof fn lemma_preorder_replay(t: TxExecInfoModel, k: int)
    requires
        0 <= k < tx_call_sequence(t).len(),
    ensures
        drop_n(tx_call_sequence(t), k).len() == tx_call_sequence(t).len() - k,
        drop_n(tx_call_sequence(t), k)[0] == tx_call_sequence(t)[k],
{
    lemma_drop_n_skip(tx_call_sequence(t), k);
}

/// The deployed addresses contributed by a sequence of inner calls: the
/// caller address of each call that went through a constructor entry
/// point, in order.
pub open spec fn deployed_of_seq(s: Seq<CallModel>) -> Seq<Seq<u8>>
    decreases s.len(),
{
    if s.len() == 0 {
        Seq::empty()
    } else {
        deployed_of_seq(s.drop_last()) + (
            if s.last().entry_point_type == EntryPointType::Constructor {
                seq![s.last().caller_address]
            } else {
                Seq::empty()
            }
        )
    }
}

/// The deployed-address view of a call: one address per constructor
/// inner call, in inner-call order.
pub open spec fn deployed_of(c: CallModel) -> Seq<Seq<u8>> {
    deployed_of_seq(c.inner_calls)
}

/// The result view of a call: one triple per inner call, in order.
pub open spec fn results_of(c: CallModel) -> Seq<CallResultModel> {
    c.inner_calls.map_values(|ic: CallModel| ic.result)
}

/// Ghost mirror of `ExecutionHelper`.
#[verifier::ext_equal]
pub ghost struct EhModel {
    pub prev_block_context: Option<BlockContextModel>,
    pub remaining_txs: Seq<TxExecInfoModel>,
    pub tx_execution_info: Option<TxExecInfoModel>,
    pub tx_info_ptr: Option<Relocatable>,
    pub call_execution_info_ptr: Option<Relocatable>,
    pub call_queue: Seq<CallModel>,
    pub call_info: Option<CallModel>,
    pub results: Seq<CallResultModel>,
    pub deployed_contracts: Seq<Seq<u8>>,
    pub storage_reads: Seq<Seq<u8>>,
}

pub open spec fn opt_tx_model(o: Option<TxExecInfo>) -> Option<TxExecInfoModel> {
    match o {
        Option::Some(t) => Option::Some(t.model()),
        Option::None => Option::None,
    }
}

pub open spec fn opt_block_model(o: Option<BlockContext>) -> Option<BlockContextModel> {
    match o {
        Option::Some(b) => Option::Some(b.model()),
        Option::None => Option::None,
    }
}

/// The mutable cursor over the batch's execution trace.
pub struct ExecutionHelper {
    pub prev_block_context: Option<BlockContext>,
    pub tx_execution_info_iter: TxStream,
    pub tx_execution_info: Option<TxExecInfo>,
    pub tx_info_ptr: Option<Relocatable>,
    pub call_execution_info_ptr: Option<Relocatable>,
    pub call_iter: CallStream,
    pub call_info: Option<CallInfo>,
    pub result_iter: ResultStream,
    pub deployed_contracts_iter: FeltStream,
    pub execute_code_read_iter: FeltStream,
}

impl ExecutionHelper {
    pub open spec fn wf(&self) -> bool {
        &&& self.tx_execution_info_iter.wf()
        &&& self.call_iter.wf()
        &&& self.result_iter.wf()
        &&& self.deployed_contracts_iter.wf()
        &&& self.execute_code_read_iter.wf()
    }

    pub open spec fn model(&self) -> EhModel {
        EhModel {
            prev_block_context: opt_block_model(self.prev_block_context),
            remaining_txs: self.tx_execution_info_iter.remaining(),
            tx_execution_info: opt_tx_model(self.tx_execution_info),
            tx_info_ptr: self.tx_info_ptr,
            call_execution_info_ptr: self.call_execution_info_ptr,
            call_queue: self.call_iter.remaining(),
            call_info: match self.call_info {
                Option::Some(c) => Option::Some(c.model()),
                Option::None => Option::None,
            },
            results: self.result_iter.remaining(),
            deployed_contracts: self.deployed_contracts_iter.remaining(),
            storage_reads: self.execute_code_read_iter.remaining(),
        }
    }

    /// All three per-call views are drained.
    pub open spec fn per_call_iters_exhausted(&self) -> bool {
        &&& self.model().deployed_contracts.len() == 0
        &&& self.model().results.len() == 0
        &&& self.model().storage_reads.len() == 0
    }

    /// A helper over the given batch. The previous block context exists
    /// exactly when the chain is at least `STORED_BLOCK_HASH_BUFFER`
    /// blocks deep.
    pub fn new(tx_execution_infos: Vec<TxExecInfo>, block_context: &BlockContext) -> (r:
        ExecutionHelper)
        ensures
            r.wf(),
            r.model().remaining_txs =~= tx_execution_infos@.map_values(
                |t: TxExecInfo| t.model(),
            ),
            r.model().tx_execution_info is None,
            r.model().tx_info_ptr is None,
            r.model().call_execution_info_ptr is None,
            r.model().call_info is None,
            r.model().call_queue.len() == 0,
            r.per_call_iters_exhausted(),
            block_context.block_number >= STORED_BLOCK_HASH_BUFFER ==> r.model().prev_block_context
                == Option::Some(block_context.model()),
            block_context.block_number < STORED_BLOCK_HASH_BUFFER ==> r.model().prev_block_context
                is None,
    {
        let prev_block_context = if block_context.block_number >= STORED_BLOCK_HASH_BUFFER {
            Option::Some(block_context.duplicate())
        } else {
            Option::None
        };
        ExecutionHelper {
            prev_block_context,
            tx_execution_info_iter: TxStream::from_vec(tx_execution_infos),
            tx_execution_info: Option::None,
            tx_info_ptr: Option::None,
            call_execution_info_ptr: Option::None,
            call_iter: CallStream::empty(),
            call_info: Option::None,
            result_iter: ResultStream::empty(),
            deployed_contracts_iter: FeltStream::empty(),
            execute_code_read_iter: FeltStream::empty(),
        }
    }

    /// Open the next transaction: record the pointer, pop the front of the
    /// transaction stream and build its pre-order call queue.
    pub fn start_tx(&mut self, tx_info_ptr: Option<Relocatable>)
        requires
            old(self).wf(),
            old(self).model().tx_info_ptr is None,
            old(self).model().tx_execution_info is None,
            old(self).model().remaining_txs.len() > 0,
        ensures
            final(self).wf(),
            final(self).model() == (EhModel {
                remaining_txs: old(self).model().remaining_txs.drop_first(),
                tx_execution_info: Option::Some(old(self).model().remaining_txs[0]),
                tx_info_ptr: tx_info_ptr,
                call_queue: tx_call_sequence(old(self).model().remaining_txs[0]),
                ..old(self).model()
            }),
    {
        self.tx_info_ptr = tx_info_ptr;
        let tx = self.tx_execution_info_iter.next_item();
        let queue = tx.gen_call_iterator();
        self.call_iter = CallStream::from_vec(queue);
        self.tx_execution_info = Option::Some(tx);
    }

    /// Close the open transaction. Its call queue, and the per-call views
    /// of the last call, must be drained; afterwards every per-transaction
    /// and per-call sequence is empty.
    pub fn end_tx(&mut self)
        requires
            old(self).wf(),
            old(self).model().call_queue.len() == 0,
            old(self).model().tx_execution_info is Some,
            old(self).model().call_info is None,
            old(self).per_call_iters_exhausted(),
        ensures
            final(self).wf(),
            final(self).model() == (EhModel {
                tx_execution_info: Option::None,
                tx_info_ptr: Option::None,
                ..old(self).model()
            }),
            final(self).model().call_queue.len() == 0,
            final(self).per_call_iters_exhausted(),
    {
        self.tx_info_ptr = Option::None;
        self.tx_execution_info = Option::None;
    }

    /// Open and at once close the next transaction; only fit for one whose
    /// call trees are all absent.
    pub fn skip_tx(&mut self)
        requires
            old(self).wf(),
            old(self).model().tx_info_ptr is None,
            old(self).model().tx_execution_info is None,
            old(self).model().remaining_txs.len() > 0,
            old(self).model().call_queue.len() == 0,
            old(self).model().call_info is None,
            old(self).per_call_iters_exhausted(),
            tx_call_sequence(old(self).model().remaining_txs[0]).len() == 0,
        ensures
            final(self).wf(),
            final(self).model() == (EhModel {
                remaining_txs: old(self).model().remaining_txs.drop_first(),
                ..old(self).model()
            }),
    {
        self.start_tx(Option::None);
        self.end_tx();
        proof {
            assert(self.model() =~= EhModel {
                remaining_txs: old(self).model().remaining_txs.drop_first(),
                ..old(self).model()
            });
        }
    }

    /// Open the next call of the queue: record the pointer, pop the front
    /// call and derive its three per-call views.
    pub fn enter_call(&mut self, execution_info_ptr: Option<Relocatable>)
        requires
            old(self).wf(),
            old(self).model().call_execution_info_ptr is None,
            old(self).per_call_iters_exhausted(),
            old(self).model().call_info is None,
            old(self).model().call_queue.len() > 0,
        ensures
            final(self).wf(),
            final(self).model() == (EhModel {
                call_execution_info_ptr: execution_info_ptr,
                call_queue: old(self).model().call_queue.drop_first(),
                call_info: Option::Some(old(self).model().call_queue[0]),
                deployed_contracts: deployed_of(old(self).model().call_queue[0]),
                results: results_of(old(self).model().call_queue[0]),
                storage_reads: old(self).model().call_queue[0].storage_read_values,
                ..old(self).model()
            }),
    {
        self.call_execution_info_ptr = execution_info_ptr;
        let call = self.call_iter.next_item();
        proof {
            lemma_call_models_index(call.inner_calls@);
        }

        // Deployed contracts: the caller address of each constructor call.
        let mut deployed: Vec<Felt> = Vec::new();
        let ghost inner = call.model().inner_calls;
        let mut i: usize = 0;
        while i < call.inner_calls.len()
            invariant
                i <= call.inner_calls@.len(),
                inner == call.model().inner_calls,
                inner.len() == call.inner_calls@.len(),
                forall|j: int| 0 <= j < call.inner_calls@.len()
                    ==> #[trigger] inner[j] == call.inner_calls@[j].model(),
                deployed@.map_values(|f: Felt| f@) =~= deployed_of_seq(inner.take(i as int)),
            decreases call.inner_calls@.len() - i,
        {
            proof {
                assert(inner.take(i + 1).drop_last() =~= inner.take(i as int));
                assert(inner.take(i + 1).last() == inner[i as int]);
            }
            match call.inner_calls[i].entry_point_type {
                EntryPointType::Constructor => {
                    deployed.push(call.inner_calls[i].caller_address.clone());
                    proof {
                        assert(deployed@.map_values(|f: Felt| f@) =~= deployed_of_seq(
                            inner.take(i + 1),
                        ));
                    }
                },
                _ => {
                    proof {
                        assert(deployed@.map_values(|f: Felt| f@) =~= deployed_of_seq(
                            inner.take(i + 1),
                        ));
                    }
                },
            }
            i = i + 1;
        }
        proof {
            assert(inner.take(inner.len() as int) =~= inner);
        }
        self.deployed_contracts_iter = FeltStream::from_vec(deployed);

        // Results: one triple per inner call, in order.
        let mut results: Vec<CallResult> = Vec::new();
        let mut i: usize = 0;
        while i < call.inner_calls.len()
            invariant
                i <= call.inner_calls@.len(),
                inner == call.model().inner_calls,
                inner.len() == call.inner_calls@.len(),
                forall|j: int| 0 <= j < call.inner_calls@.len()
                    ==> #[trigger] inner[j] == call.inner_calls@[j].model(),
                results@.len() == i,
                forall|j: int| 0 <= j < i ==> #[trigger] results@[j].model() == inner[j].result,
            decreases call.inner_calls@.len() - i,
        {
            results.push(call.inner_calls[i].result.duplicate());
            i = i + 1;
        }
        proof {
            assert(results@.map_values(|c: CallResult| c.model()) =~= results_of(call.model()));
        }
        self.result_iter = ResultStream::from_vec(results);

        // Storage reads of the call itself, in order.
        let reads = crate::types::clone_felts(&call.storage_read_values);
        proof {
            assert(reads@.map_values(|f: Felt| f@) =~= call.model().storage_read_values);
        }
        self.execute_code_read_iter = FeltStream::from_vec(reads);

        self.call_info = Option::Some(call);
    }

    /// Close the open call; its three views must be drained.
    pub fn exit_call(&mut self)
        requires
            old(self).wf(),
            old(self).per_call_iters_exhausted(),
            old(self).model().call_info is Some,
        ensures
            final(self).wf(),
            final(self).model() == (EhModel {
                call_execution_info_ptr: Option::None,
                call_info: Option::None,
                ..old(self).model()
            }),
    {
        self.call_execution_info_ptr = Option::None;
        self.call_info = Option::None;
    }

    /// Open and at once close the next call; only fit for one with no
    /// inner calls and no storage reads.
    pub fn skip_call(&mut self)
        requires
            old(self).wf(),
            old(self).model().call_execution_info_ptr is None,
            old(self).per_call_iters_exhausted(),
            old(self).model().call_info is None,
            old(self).model().call_queue.len() > 0,
            old(self).model().call_queue[0].inner_calls.len() == 0,
            old(self).model().call_queue[0].storage_read_values.len() == 0,
        ensures
            final(self).wf(),
            final(self).model() == (EhModel {
                call_queue: old(self).model().call_queue.drop_first(),
                ..old(self).model()
            }),
    {
        self.enter_call(Option::None);
        proof {
            let head = old(self).model().call_queue[0];
            assert(deployed_of(head).len() == 0);
            assert(results_of(head).len() == 0);
        }
        self.exit_call();
        proof {
            assert(self.model() =~= EhModel {
                call_queue: old(self).model().call_queue.drop_first(),
                ..old(self).model()
            });
        }
    }
}

} // verus!
