//! The face the host VM shows the handlers, as plain data.
//!
//! A handler never touches VM memory directly: it allocates segment bases
//! from a counter pair and appends writes to a stream. The glue outside
//! the library performs each write against the real machine, so the write
//! stream is the complete record of a handler's effect on memory.

use vstd::prelude::*;
use crate::felt::Felt;

verus! {

/// An address of VM memory: a segment and an offset inside it.
///
/// Temporary segments are kept apart from real ones; the host relocates
/// them when the program ends.
#[derive(Clone, Copy, PartialEq, Eq, Structural, Debug)]
pub enum SegmentId {
    Real(u64),
    Temp(u64),
}

#[derive(Clone, Copy, PartialEq, Eq, Structural, Debug)]
pub struct Relocatable {
    pub segment: SegmentId,
    pub offset: u64,
}

/// Ghost mirror of `CellVal`.
#[verifier::ext_equal]
pub ghost enum MemValModel {
    Int(Seq<u8>),
    Ptr(Relocatable),
}

/// A memory cell's content: a field element or an address.
pub enum CellVal {
    Int(Felt),
    Ptr(Relocatable),
}

impl CellVal {
    pub open spec fn model(self) -> MemValModel {
        match self {
            CellVal::Int(f) => MemValModel::Int(f@),
            CellVal::Ptr(p) => MemValModel::Ptr(p),
        }
    }

    pub fn duplicate(&self) -> (r: CellVal)
        ensures
            r.model() == self.model(),
    {
        match self {
            CellVal::Int(f) => CellVal::Int(f.clone()),
            CellVal::Ptr(p) => CellVal::Ptr(*p),
        }
    }
}

/// Operand names a handler writes through the `ids` lookup; the glue
/// resolves each to the cell the Cairo program bound it to.
#[derive(Clone, Copy, PartialEq, Eq, Structural, Debug)]
pub enum OperandName {
    TxType,
    ContractAddressSalt,
    ClassHash,
    ConstructorCalldata,
    ConstructorCalldataSize,
    StateEntry,
}

/// Where one write lands: the ap cell, a named operand, or an address.
#[derive(Clone, Copy, PartialEq, Eq, Structural, Debug)]
pub enum WriteDest {
    Ap,
    Operand(OperandName),
    Mem(Relocatable),
}

/// One write of VM memory.
pub struct MemWrite {
    pub dest: WriteDest,
    pub value: CellVal,
}

/// Ghost mirror of `MemWrite`.
#[verifier::ext_equal]
pub ghost struct MemWriteModel {
    pub dest: WriteDest,
    pub value: MemValModel,
}

impl MemWrite {
    pub open spec fn model(self) -> MemWriteModel {
        MemWriteModel { dest: self.dest, value: self.value.model() }
    }
}

/// Ghost mirror of `Vm`.
#[verifier::ext_equal]
pub ghost struct VmModel {
    pub next_segment: u64,
    pub next_temp_segment: u64,
    pub writes: Seq<MemWriteModel>,
}

/// The handlers' view of the machine: two allocation counters and the
/// stream of writes performed so far.
pub struct Vm {
    pub next_segment: u64,
    pub next_temp_segment: u64,
    pub writes: Vec<MemWrite>,
}

impl Vm {
    pub open spec fn model(self) -> VmModel {
        VmModel {
            next_segment: self.next_segment,
            next_temp_segment: self.next_temp_segment,
            writes: self.writes@.map_values(|w: MemWrite| w.model()),
        }
    }

    /// A machine about to allocate its first segment, with no writes yet.
    pub fn new(first_free_segment: u64) -> (r: Vm)
        ensures
            r.model() == (VmModel {
                next_segment: first_free_segment,
                next_temp_segment: 0,
                writes: Seq::empty(),
            }),
    {
        let r = Vm { next_segment: first_free_segment, next_temp_segment: 0, writes: Vec::new() };
        proof {
            assert(r.writes@.map_values(|w: MemWrite| w.model()) =~= Seq::<MemWriteModel>::empty());
        }
        r
    }

    /// A fresh memory segment's base address.
    pub fn add_segment(&mut self) -> (r: Relocatable)
        requires
            old(self).next_segment < u64::MAX,
        ensures
            r == (Relocatable { segment: SegmentId::Real(old(self).next_segment), offset: 0 }),
            final(self).model() == (VmModel {
                next_segment: (old(self).next_segment + 1) as u64,
                ..old(self).model()
            }),
    {
        let r = Relocatable { segment: SegmentId::Real(self.next_segment), offset: 0 };
        self.next_segment = self.next_segment + 1;
        r
    }

    /// A fresh temporary segment's base address.
    pub fn add_temp_segment(&mut self) -> (r: Relocatable)
        requires
            old(self).next_temp_segment < u64::MAX,
        ensures
            r == (Relocatable { segment: SegmentId::Temp(old(self).next_temp_segment), offset: 0 }),
            final(self).model() == (VmModel {
                next_temp_segment: (old(self).next_temp_segment + 1) as u64,
                ..old(self).model()
            }),
    {
        let r = Relocatable { segment: SegmentId::Temp(self.next_temp_segment), offset: 0 };
        self.next_temp_segment = self.next_temp_segment + 1;
        r
    }

    /// Record one write.
    pub fn write(&mut self, dest: WriteDest, value: CellVal)
        ensures
            final(self).model() == (VmModel {
                writes: old(self).model().writes.push(
                    MemWriteModel { dest, value: value.model() },
                ),
                ..old(self).model()
            }),
    {
        let ghost v = value.model();
        self.writes.push(MemWrite { dest, value });
        proof {
            assert(self.writes@.map_values(|w: MemWrite| w.model())
                =~= old(self).writes@.map_values(|w: MemWrite| w.model()).push(
                    MemWriteModel { dest, value: v },
                ));
        }
    }
}

} // verus!
