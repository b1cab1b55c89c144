//! The execution-scope stack: string-keyed frames the hints pass state
//! through, modelled as a stack of records over a closed set of names.
//!
//! The host VM's scope stack holds type-erased boxed values; the replay
//! logic only ever stores and reads the names below, so each frame is a
//! record with one optional slot per name. The helper itself is threaded
//! through the handlers explicitly rather than stored in a frame.

use vstd::prelude::*;
use crate::felt::Felt;
use crate::types::{InternalTransaction, OsInput, OsInputModel, TransactionModel};
use crate::vm::{CellVal, MemValModel};

verus! {

broadcast use vstd::std_specs::vec::group_vec_axioms;

/// A cursor over the transactions of the input blob, as the `transactions`
/// scope variable holds them.
pub struct TxnStream {
    pub items: Vec<InternalTransaction>,
    pub next: usize,
}

impl TxnStream {
    pub open spec fn wf(&self) -> bool {
        self.next <= self.items@.len()
    }

    pub open spec fn remaining(&self) -> Seq<TransactionModel> {
        self.items@.map_values(|t: InternalTransaction| t.model()).skip(self.next as int)
    }

    pub fn from_vec(items: Vec<InternalTransaction>) -> (r: TxnStream)
        ensures
            r.wf(),
            r.remaining() =~= items@.map_values(|t: InternalTransaction| t.model()),
    {
        TxnStream { items, next: 0 }
    }

    pub fn is_exhausted(&self) -> (r: bool)
        requires
            self.wf(),
        ensures
            r == (self.remaining().len() == 0),
    {
        self.next == self.items.len()
    }

    pub fn next_item(&mut self) -> (r: InternalTransaction)
        requires
            old(self).wf(),
            old(self).remaining().len() > 0,
        ensures
            final(self).wf(),
            r.model() == old(self).remaining()[0],
            final(self).remaining() =~= old(self).remaining().drop_first(),
    {
        let r = self.items[self.next].duplicate();
        let n: usize = self.items.len();
        proof {
            assert(self.next < n);
        }
        self.next = self.next + 1;
        proof {
            assert(self.remaining() =~= old(self).remaining().drop_first());
        }
        r
    }
}

/// One key/value pair of a dictionary handed to the VM's dict manager.
pub struct DictEntry {
    pub key: CellVal,
    pub value: CellVal,
}

/// Ghost mirror of `DictEntry`.
#[verifier::ext_equal]
pub ghost struct DictEntryModel {
    pub key: MemValModel,
    pub value: MemValModel,
}

impl DictEntry {
    pub open spec fn model(self) -> DictEntryModel {
        DictEntryModel { key: self.key.model(), value: self.value.model() }
    }
}

/// Ghost mirror of `ScopeFrame`.
#[verifier::ext_equal]
pub ghost struct ScopeFrameModel {
    pub os_input: Option<OsInputModel>,
    pub input_path: Option<Seq<char>>,
    pub transactions: Option<Seq<TransactionModel>>,
    pub tx: Option<TransactionModel>,
    pub deprecated_class_hashes: Option<Seq<Seq<u8>>>,
    pub dict_manager: bool,
    pub initial_dict: Option<Seq<DictEntryModel>>,
    pub contract_state_changes: Option<Seq<DictEntryModel>>,
    pub selected_builtins: Option<Seq<Seq<u8>>>,
    pub is_deprecated_flag: Option<bool>,
}

/// One frame of the execution-scope stack.
pub struct ScopeFrame {
    pub os_input: Option<OsInput>,
    pub input_path: Option<String>,
    pub transactions: Option<TxnStream>,
    pub tx: Option<InternalTransaction>,
    pub deprecated_class_hashes: Option<Vec<Felt>>,
    pub dict_manager: bool,
    pub initial_dict: Option<Vec<DictEntry>>,
    pub contract_state_changes: Option<Vec<DictEntry>>,
    pub selected_builtins: Option<Vec<Felt>>,
    pub is_deprecated_flag: Option<bool>,
}

impl ScopeFrame {
    pub open spec fn wf(&self) -> bool {
        match self.transactions {
            Option::Some(t) => t.wf(),
            Option::None => true,
        }
    }

    pub open spec fn model(&self) -> ScopeFrameModel {
        ScopeFrameModel {
            os_input: match self.os_input {
                Option::Some(o) => Option::Some(o.model()),
                Option::None => Option::None,
            },
            input_path: match self.input_path {
                Option::Some(p) => Option::Some(p@),
                Option::None => Option::None,
            },
            transactions: match self.transactions {
                Option::Some(t) => Option::Some(t.remaining()),
                Option::None => Option::None,
            },
            tx: match self.tx {
                Option::Some(t) => Option::Some(t.model()),
                Option::None => Option::None,
            },
            deprecated_class_hashes: match self.deprecated_class_hashes {
                Option::Some(v) => Option::Some(v@.map_values(|f: Felt| f@)),
                Option::None => Option::None,
            },
            dict_manager: self.dict_manager,
            initial_dict: match self.initial_dict {
                Option::Some(v) => Option::Some(v@.map_values(|e: DictEntry| e.model())),
                Option::None => Option::None,
            },
            contract_state_changes: match self.contract_state_changes {
                Option::Some(v) => Option::Some(v@.map_values(|e: DictEntry| e.model())),
                Option::None => Option::None,
            },
            selected_builtins: match self.selected_builtins {
                Option::Some(v) => Option::Some(v@.map_values(|f: Felt| f@)),
                Option::None => Option::None,
            },
            is_deprecated_flag: self.is_deprecated_flag,
        }
    }

    /// A frame with every slot unset.
    pub fn new_empty() -> (r: ScopeFrame)
        ensures
            r.wf(),
            r.model() == (ScopeFrameModel {
                os_input: Option::None,
                input_path: Option::None,
                transactions: Option::None,
                tx: Option::None,
                deprecated_class_hashes: Option::None,
                dict_manager: false,
                initial_dict: Option::None,
                contract_state_changes: Option::None,
                selected_builtins: Option::None,
                is_deprecated_flag: Option::None,
            }),
    {
        ScopeFrame {
            os_input: Option::None,
            input_path: Option::None,
            transactions: Option::None,
            tx: Option::None,
            deprecated_class_hashes: Option::None,
            dict_manager: false,
            initial_dict: Option::None,
            contract_state_changes: Option::None,
            selected_builtins: Option::None,
            is_deprecated_flag: Option::None,
        }
    }
}

/// The scope stack itself: at least one frame, the last one current.
pub struct Scopes {
    pub frames: Vec<ScopeFrame>,
}

impl Scopes {
    pub open spec fn wf(&self) -> bool {
        &&& self.frames@.len() > 0
        &&& forall|i: int| 0 <= i < self.frames@.len() ==> (#[trigger] self.frames@[i]).wf()
    }

    pub open spec fn model(&self) -> Seq<ScopeFrameModel> {
        self.frames@.map_values(|f: ScopeFrame| f.model())
    }

    /// The current (innermost) frame's model.
    pub open spec fn cur(&self) -> ScopeFrameModel {
        self.model().last()
    }

    /// A stack holding one empty frame.
    pub fn new_root() -> (r: Scopes)
        ensures
            r.wf(),
            r.model().len() == 1,
            r.cur() == (ScopeFrameModel {
                os_input: Option::None,
                input_path: Option::None,
                transactions: Option::None,
                tx: Option::None,
                deprecated_class_hashes: Option::None,
                dict_manager: false,
                initial_dict: Option::None,
                contract_state_changes: Option::None,
                selected_builtins: Option::None,
                is_deprecated_flag: Option::None,
            }),
    {
        let mut frames: Vec<ScopeFrame> = Vec::new();
        frames.push(ScopeFrame::new_empty());
        Scopes { frames }
    }

    /// Push a frame, making it current.
    pub fn enter_scope(&mut self, frame: ScopeFrame)
        requires
            old(self).wf(),
            frame.wf(),
        ensures
            final(self).wf(),
            final(self).model() =~= old(self).model().push(frame.model()),
            final(self).cur() == frame.model(),
    {
        self.frames.push(frame);
        proof {
            assert(self.model() =~= old(self).model().push(frame.model()));
        }
    }

    /// Take the current frame out to work on it; put it back with
    /// `restore_frame`.
    pub fn take_frame(&mut self) -> (r: ScopeFrame)
        requires
            old(self).wf(),
        ensures
            r.wf(),
            r.model() == old(self).cur(),
            final(self).model() =~= old(self).model().drop_last(),
            forall|i: int| 0 <= i < final(self).frames@.len()
                ==> (#[trigger] final(self).frames@[i]).wf(),
    {
        let r = self.frames.pop().unwrap();
        proof {
            assert(self.model() =~= old(self).model().drop_last());
        }
        r
    }

    /// Put a frame back as the current one.
    pub fn restore_frame(&mut self, frame: ScopeFrame)
        requires
            frame.wf(),
            forall|i: int| 0 <= i < old(self).frames@.len()
                ==> (#[trigger] old(self).frames@[i]).wf(),
        ensures
            final(self).wf(),
            final(self).model() =~= old(self).model().push(frame.model()),
            final(self).cur() == frame.model(),
    {
        self.frames.push(frame);
        proof {
            assert(self.model() =~= old(self).model().push(frame.model()));
        }
    }
}

} // verus!
