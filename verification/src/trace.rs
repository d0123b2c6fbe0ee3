//! A log of the accesses that a machine makes to its registers and memory.

use vstd::prelude::*;

verus! {

/// Direction of a logged access.
#[derive(Clone, Copy, Debug, PartialEq, Eq, Structural)]
pub enum MemOp {
    Read,
    Write,
}

/// What a logged access touched: a register, or a memory address.
#[derive(Clone, Copy, Debug, PartialEq, Eq, Structural)]
pub enum MachineStateType {
    X,
    Y,
    A,
    S,
    PC,
    SP,
    ADDR,
}

/// One logged access.
#[derive(Clone, Copy, Debug, PartialEq, Eq, Structural)]
pub struct MemoryEntry {
    /// Position in the log, counted from 1.
    pub step: u64,
    /// The address, present exactly for accesses of kind `ADDR`.
    pub addr: Option<u32>,
    pub etype: MachineStateType,
    /// Wide enough to hold the program counter.
    pub val: u16,
    pub op_rw: MemOp,
}

/// The entry that the `n`-th access of a log gets.
pub open spec fn entry_for(
    n: int,
    addr: u32,
    val: u16,
    etype: MachineStateType,
    op_rw: MemOp,
) -> MemoryEntry {
    MemoryEntry {
        step: n as u64,
        addr: if etype == MachineStateType::ADDR {
            Some(addr)
        } else {
            None
        },
        etype,
        val,
        op_rw,
    }
}

/// An append-only log of accesses, numbered in the order they were made.
#[derive(Clone, Debug)]
pub struct Trace {
    steps: u64,
    entries: Vec<MemoryEntry>,
}

impl View for Trace {
    type V = Seq<MemoryEntry>;

    closed spec fn view(&self) -> Seq<MemoryEntry> {
        self.entries@
    }
}

impl Trace {
    /// The number of accesses logged so far.
    pub closed spec fn spec_steps(&self) -> int {
        self.steps as int
    }

    /// The step counter equals the number of entries, entry `i` carries
    /// step `i + 1`, and an entry has an address exactly if it is of kind
    /// `ADDR`.
    pub closed spec fn wf(&self) -> bool {
        &&& self.steps as int == self.entries@.len()
        &&& forall|i: int|
            0 <= i < self.entries@.len() ==> {
                &&& (#[trigger] self.entries@[i]).step as int == i + 1
                &&& (self.entries@[i].addr is Some <==> self.entries@[i].etype
                    == MachineStateType::ADDR)
            }
    }

    pub fn new() -> (t: Self)
        ensures
            t.wf(),
            t@ == Seq::<MemoryEntry>::empty(),
            t.spec_steps() == 0,
    {
        Self { entries: Vec::new(), steps: 0 }
    }

    /// Logs a read of `val`. `addr` is kept only when `etype` is `ADDR`.
    pub fn read(&mut self, addr: u32, val: u16, etype: MachineStateType)
        requires
            old(self).wf(),
            old(self).spec_steps() < u64::MAX,
        ensures
            final(self).wf(),
            final(self).spec_steps() == old(self).spec_steps() + 1,
            final(self)@ == old(self)@.push(
                entry_for(old(self).spec_steps() + 1, addr, val, etype, MemOp::Read),
            ),
    {
        self.record(addr, val, etype, MemOp::Read);
    }

    /// Logs a write of `val`. `addr` is kept only when `etype` is `ADDR`.
    pub fn write(&mut self, addr: u32, val: u16, etype: MachineStateType)
        requires
            old(self).wf(),
            old(self).spec_steps() < u64::MAX,
        ensures
            final(self).wf(),
            final(self).spec_steps() == old(self).spec_steps() + 1,
            final(self)@ == old(self)@.push(
                entry_for(old(self).spec_steps() + 1, addr, val, etype, MemOp::Write),
            ),
    {
        self.record(addr, val, etype, MemOp::Write);
    }

    fn record(&mut self, addr: u32, val: u16, etype: MachineStateType, op_rw: MemOp)
        requires
            old(self).wf(),
            old(self).spec_steps() < u64::MAX,
        ensures
            final(self).wf(),
            final(self).spec_steps() == old(self).spec_steps() + 1,
            final(self)@ == old(self)@.push(
                entry_for(old(self).spec_steps() + 1, addr, val, etype, op_rw),
            ),
    {
        self.steps += 1;
        let kept: Option<u32> = if etype == MachineStateType::ADDR {
            Some(addr)
        } else {
            None
        };
        self.entries.push(MemoryEntry { step: self.steps, addr: kept, val, op_rw, etype });
    }

    /// The number of accesses logged so far.
    pub fn steps(&self) -> (n: u64)
        ensures
            n as int == self.spec_steps(),
    {
        self.steps
    }

    /// The logged accesses, oldest first.
    pub fn entries(&self) -> (es: &Vec<MemoryEntry>)
        ensures
            es@ == self@,
    {
        &self.entries
    }
}

/// In a well-formed log the counter equals the length, every entry's
/// step is its position counted from 1, and exactly the entries of kind
/// `ADDR` have an address.
pub proof fn lemma_steps_number_entries(t: Trace, i: int)
    requires
        t.wf(),
        0 <= i < t@.len(),
    ensures
        t.spec_steps() == t@.len(),
        t@[i].step as int == i + 1,
        t@[i].addr is Some <==> t@[i].etype == MachineStateType::ADDR,
{
}

} // verus!
