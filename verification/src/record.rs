//! The shared composite record and the heap cells that hold call targets.
//!
//! `Data` is the value exposed across the trust boundary: three fixed slots,
//! two call targets, and a growable sequence whose bookkeeping (claimed
//! length and capacity) is stored in the record, apart from the element
//! storage it describes.  The bookkeeping is ordinary mutable state, so a
//! foreign write can make it disagree with the true allocation; the
//! `checked_write` method then shows how a bounds check that trusts the
//! claimed length accepts a write that escapes the true buffer.

use vstd::prelude::*;
use crate::callable::{CallTarget, CallableId, InvokeOutcome, invoke_outcome, invoke_value,
    invoke_target};

verus! {

/// Number of fixed slots in the record.
pub const MAX_LENGTH: usize = 3;

/// A growable sequence of integers with its bookkeeping held separately from
/// the element storage.
///
/// `elems` is the true backing allocation.  `length` and `capacity` are the
/// claimed bookkeeping the safe side consults on every access; while the
/// record is intact they equal the true allocation's size, but nothing ties
/// them to it once a foreign write reaches the record.
pub struct DynSlots {
    pub elems: Vec<i64>,
    pub length: i64,
    pub capacity: i64,
}

/// Where a bounds-checked write at `idx` lands, given the claimed length.
#[derive(Clone, Copy, PartialEq, Eq, Structural, Debug)]
pub enum WriteOutcome {
    /// Accepted by the check and within the true allocation.
    InBuffer,
    /// Accepted by the check, yet outside the true allocation.
    Escaped,
    /// Refused by the check.
    Rejected,
}

/// The disposition of a bounds-checked write at `idx`: the check consults
/// only the claimed `length`, so an index may pass it and still lie outside
/// the true allocation.
pub open spec fn write_disposition(s: DynSlots, idx: i64) -> WriteOutcome {
    if !(0 <= idx < s.length) {
        WriteOutcome::Rejected
    } else if (idx as int) < s.elems@.len() {
        WriteOutcome::InBuffer
    } else {
        WriteOutcome::Escaped
    }
}

impl DynSlots {
    /// The bookkeeping still describes the true allocation.
    pub open spec fn metadata_intact(self) -> bool {
        self.length == self.elems@.len() && self.capacity == self.elems@.len()
    }

    /// The invariant the safe side believes: a non-negative length within
    /// capacity.  Foreign metadata writes may break it.
    pub open spec fn wf(self) -> bool {
        0 <= self.length <= self.capacity
    }

    /// Write `v` at `idx` behind a bounds check against the claimed length.
    ///
    /// An accepted write within the true allocation updates the element; an
    /// accepted write beyond it changes nothing here and is reported as
    /// `Escaped`, for the caller to resolve against the modeled layout.
    pub fn checked_write(&mut self, idx: i64, v: i64) -> (r: WriteOutcome)
        requires
            old(self).elems@.len() <= 0x7fff_ffff,
        ensures
            r == write_disposition(*old(self), idx),
            r == WriteOutcome::InBuffer ==> final(self).elems@ == old(self).elems@.update(
                idx as int,
                v,
            ),
            r == WriteOutcome::InBuffer ==> final(self).length == old(self).length
                && final(self).capacity == old(self).capacity,
            r != WriteOutcome::InBuffer ==> *final(self) == *old(self),
    {
        if idx < 0 || idx >= self.length {
            WriteOutcome::Rejected
        } else {
            let n: i64 = self.elems.len() as i64;
            if idx < n {
                self.elems[idx as usize] = v;
                WriteOutcome::InBuffer
            } else {
                WriteOutcome::Escaped
            }
        }
    }
}

/// The composite record shared across the trust boundary.
pub struct Data {
    /// The fixed slots: exactly `MAX_LENGTH` integers, addressable as
    /// consecutive words from the record's base address.
    pub vals: Vec<i64>,
    /// The primary call target, stored directly after the fixed slots.
    pub cb: CallTarget,
    /// The growable sequence and its bookkeeping.
    pub vecs: DynSlots,
    /// The secondary call target.
    pub cb2: CallTarget,
}

/// A record that differs from a freshly created one at most in its first
/// fixed slot, which holds `v0`.
pub open spec fn fresh_data_with_val0(d: Data, v0: i64) -> bool {
    &&& d.vals@ == seq![v0, 2i64, 3i64]
    &&& d.cb == CallTarget::Valid(CallableId::AddOne)
    &&& d.vecs.elems@ == seq![4i64, 5i64]
    &&& d.vecs.length == 2
    &&& d.vecs.capacity == 2
    &&& d.cb2 == CallTarget::Valid(CallableId::AddTwo)
}

/// A record exactly as every family-variant run creates it: fixed slots
/// 1, 2, 3; add-one as the primary target; elements 4, 5 with intact
/// bookkeeping; add-two as the secondary target.
pub open spec fn fresh_data(d: Data) -> bool {
    fresh_data_with_val0(d, 1)
}

impl Data {
    /// The shape every access relies on: full fixed slots and believable
    /// bookkeeping.
    pub open spec fn wf(self) -> bool {
        self.vals@.len() == MAX_LENGTH && self.vecs.wf()
    }

    /// Create the record a run starts from.
    pub fn fresh() -> (d: Data)
        ensures
            fresh_data(d),
            d.wf(),
    {
        let d = Data {
            vals: vec![1i64, 2i64, 3i64],
            cb: CallTarget::Valid(CallableId::AddOne),
            vecs: DynSlots { elems: vec![4i64, 5i64], length: 2, capacity: 2 },
            cb2: CallTarget::Valid(CallableId::AddTwo),
        };
        proof {
            assert(d.vals@ =~= seq![1i64, 2i64, 3i64]);
            assert(d.vecs.elems@ =~= seq![4i64, 5i64]);
        }
        d
    }

    /// Read fixed slot `i`: the safe side's indexed access, within bounds by
    /// contract — the containment the attacks circumvent from outside the
    /// type system, never through this interface.
    pub fn read_slot(&self, i: usize) -> (v: i64)
        requires
            i < MAX_LENGTH,
            self.vals@.len() == MAX_LENGTH,
        ensures
            v == self.vals@[i as int],
    {
        self.vals[i]
    }

    /// Write fixed slot `i`, touching nothing else in the record.
    pub fn write_slot(&mut self, i: usize, v: i64)
        requires
            i < MAX_LENGTH,
            old(self).vals@.len() == MAX_LENGTH,
        ensures
            final(self).vals@ == old(self).vals@.update(i as int, v),
            final(self).cb == old(self).cb,
            final(self).vecs == old(self).vecs,
            final(self).cb2 == old(self).cb2,
    {
        self.vals[i] = v;
    }
}

/// What a trace shows of the record at one moment: the first fixed slot,
/// both call targets, the claimed bookkeeping, and the first dynamic
/// element.
#[derive(Clone, Copy, PartialEq, Eq, Structural, Debug)]
pub struct RecordSnapshot {
    pub val0: i64,
    pub cb: CallTarget,
    pub length: i64,
    pub capacity: i64,
    pub vecs0: i64,
    pub cb2: CallTarget,
}

/// The snapshot of a record's current state.
pub open spec fn spec_snapshot(d: Data) -> RecordSnapshot {
    RecordSnapshot {
        val0: d.vals@[0],
        cb: d.cb,
        length: d.vecs.length,
        capacity: d.vecs.capacity,
        vecs0: d.vecs.elems@[0],
        cb2: d.cb2,
    }
}

/// The snapshot every freshly created record shows.
pub open spec fn fresh_snapshot() -> RecordSnapshot {
    RecordSnapshot {
        val0: 1,
        cb: CallTarget::Valid(CallableId::AddOne),
        length: 2,
        capacity: 2,
        vecs0: 4,
        cb2: CallTarget::Valid(CallableId::AddTwo),
    }
}

/// Take the record's current snapshot, for the trace.
pub fn snapshot(d: &Data) -> (s: RecordSnapshot)
    requires
        d.vals@.len() > 0,
        d.vecs.elems@.len() > 0,
    ensures
        s == spec_snapshot(*d),
{
    RecordSnapshot {
        val0: d.vals[0],
        cb: d.cb,
        length: d.vecs.length,
        capacity: d.vecs.capacity,
        vecs0: d.vecs.elems[0],
        cb2: d.cb2,
    }
}

/// A freshly created record satisfies every invariant the safe side
/// believes: full fixed slots, believable bookkeeping, and bookkeeping that
/// truly describes the allocation.
pub proof fn lemma_fresh_data_invariants(d: Data)
    requires
        fresh_data(d),
    ensures
        d.wf(),
        d.vecs.metadata_intact(),
{
}

/// With intact bookkeeping the bounds check is honest: every write it
/// accepts lands inside the true allocation.  Only lying metadata can make
/// a checked write escape.
pub proof fn lemma_intact_metadata_is_honest(s: DynSlots, idx: i64)
    requires
        s.metadata_intact(),
    ensures
        write_disposition(s, idx) != WriteOutcome::Escaped,
{
}

/// What a heap cell's storage holds.
#[derive(Clone, Copy, PartialEq, Eq, Structural, Debug)]
pub enum CellContent {
    /// Live storage holding a call target.
    Target(CallTarget),
    /// The storage was freed; any read through a stale reference is a
    /// use-after-free.
    Freed,
}

/// A heap allocation holding one call target, at a modeled address.
///
/// The safe side keeps a reference to the cell across the adversary step and
/// invokes through it afterwards; the reference itself never changes, only
/// the storage behind it.
pub struct HeapCell {
    pub addr: i64,
    pub content: CellContent,
}

/// The outcome of invoking through a reference to this storage.
pub open spec fn cell_outcome(c: CellContent) -> InvokeOutcome {
    match c {
        CellContent::Target(t) => invoke_outcome(t),
        CellContent::Freed => InvokeOutcome::UseAfterFree,
    }
}

/// The value left behind by invoking through a reference to this storage.
pub open spec fn cell_value(c: CellContent, x: i64) -> i64 {
    match c {
        CellContent::Target(t) => invoke_value(t, x),
        CellContent::Freed => x,
    }
}

/// Allocate a heap cell holding `t` at the modeled address `addr`.
pub fn alloc_cell(addr: i64, t: CallTarget) -> (c: HeapCell)
    ensures
        c.addr == addr,
        c.content == CellContent::Target(t),
{
    HeapCell { addr, content: CellContent::Target(t) }
}

impl HeapCell {
    /// Foreign overwrite of the storage: the cell now holds a raw word of
    /// foreign origin.  The reference the safe side kept is untouched.
    pub fn overwrite(&mut self, w: i64)
        ensures
            final(self).addr == old(self).addr,
            final(self).content == CellContent::Target(CallTarget::ForeignWord(w)),
    {
        self.content = CellContent::Target(CallTarget::ForeignWord(w));
    }

    /// Foreign free of the storage, while the safe side's reference lives on.
    pub fn free(&mut self)
        ensures
            final(self).addr == old(self).addr,
            final(self).content == CellContent::Freed,
    {
        self.content = CellContent::Freed;
    }

    /// Invoke through the stale reference the safe side kept: whatever now
    /// occupies the storage decides what runs.
    pub fn invoke(&self, x: &mut i64) -> (o: InvokeOutcome)
        ensures
            o == cell_outcome(self.content),
            *final(x) == cell_value(self.content, *old(x)),
    {
        match &self.content {
            CellContent::Target(t) => invoke_target(t, x),
            CellContent::Freed => InvokeOutcome::UseAfterFree,
        }
    }
}

} // verus!
