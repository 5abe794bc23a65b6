//! DynamicBoundsBypass: a bounds check is only as good as its metadata.
//!
//! The safe side exposes the address of the growable sequence's bookkeeping
//! — never its element storage — and the adversary may overwrite only the
//! claimed length and capacity.  The safe side then derives an element index
//! from the distance between a second heap-held callable and the sequence's
//! first element (the adversary's knowledge of the address-space layout,
//! injected here as the two addresses), checks it against the claimed
//! length, and writes.  With corrupted bookkeeping the check passes while
//! the index lies beyond the true allocation, so the "safe" write lands on
//! the heap cell's storage; resuming through that cell then runs the written
//! word's target.  The element storage itself is never touched by anyone.

use vstd::prelude::*;
use crate::adversary::{Capability, MetadataAction};
use crate::callable::{CallTarget, CallableId, InvokeOutcome, invoke_outcome};
use crate::exposure::{VECS_OFFSET, base_ok, vecs_addr};
use crate::record::{CellContent, Data, HeapCell, RecordSnapshot, WriteOutcome, alloc_cell,
    cell_outcome, cell_value, fresh_data_with_val0, fresh_snapshot, snapshot};
use crate::trace::{Event, Family, Report, trace_wf, lemma_trace_wf_eight};

verus! {

/// The element index the safe side computes: the word distance from the
/// sequence's first element to the heap cell's storage.
pub open spec fn index_delta(elems_base: i64, cell_location: i64) -> int {
    (cell_location - elems_base) / 8
}

/// A usable layout for this family: both allocations word-aligned and
/// non-negative, with the heap cell past the two-element storage — the cell
/// and the elements do not alias.
pub open spec fn layout_ok(elems_base: i64, cell_location: i64) -> bool {
    &&& 0 <= elems_base
    &&& elems_base % 8 == 0
    &&& cell_location % 8 == 0
    &&& elems_base + 16 <= cell_location
}

/// The claimed length after the adversary's metadata step.
pub open spec fn claimed_length(a: MetadataAction) -> i64 {
    match a {
        MetadataAction::Decline => 2,
        MetadataAction::SetBookkeeping { length, .. } => length,
    }
}

/// The claimed capacity after the adversary's metadata step.
pub open spec fn claimed_capacity(a: MetadataAction) -> i64 {
    match a {
        MetadataAction::Decline => 2,
        MetadataAction::SetBookkeeping { capacity, .. } => capacity,
    }
}

/// Whether the adversary's step changed the bookkeeping.
pub open spec fn db_corrupts(a: MetadataAction) -> bool {
    !(a == MetadataAction::Decline)
}

/// Whether the bounds check — made against the claimed length — accepts the
/// computed index.
pub open spec fn db_accepted(a: MetadataAction, delta: int) -> bool {
    0 <= delta < claimed_length(a)
}

/// The heap cell's storage after the resume path's checked write: an
/// accepted write at an index past the true allocation lands on the cell.
pub open spec fn db_cell_after(a: MetadataAction, delta: int, payload: i64) -> CellContent {
    if db_accepted(a, delta) {
        CellContent::Target(CallTarget::ForeignWord(payload))
    } else {
        CellContent::Target(CallTarget::Valid(CallableId::AddTwo))
    }
}

/// The outcome the resumed invocation through the heap cell observes.
pub open spec fn db_outcome(a: MetadataAction, delta: int, payload: i64) -> InvokeOutcome {
    cell_outcome(db_cell_after(a, delta, payload))
}

/// The value the first fixed slot holds afterwards.
pub open spec fn db_final(a: MetadataAction, delta: int, payload: i64) -> i64 {
    cell_value(db_cell_after(a, delta, payload), 1)
}

/// The record as the adversary's metadata step leaves it: only the claimed
/// bookkeeping can differ from the fresh state.
pub open spec fn db_snapshot(a: MetadataAction) -> RecordSnapshot {
    RecordSnapshot {
        val0: 1,
        cb: CallTarget::Valid(CallableId::AddOne),
        length: claimed_length(a),
        capacity: claimed_capacity(a),
        vecs0: 4,
        cb2: CallTarget::Valid(CallableId::AddTwo),
    }
}

/// The full trace of a DynamicBoundsBypass run.
pub open spec fn db_events(vaddr: i64, delta: int, a: MetadataAction, payload: i64) -> Seq<Event> {
    seq![
        Event::Created(fresh_snapshot()),
        Event::Granted(Capability::MetadataWrite { addr: vaddr }),
        if db_corrupts(a) {
            Event::Corrupted
        } else {
            Event::Declined
        },
        Event::PostRecord(db_snapshot(a)),
        Event::IndexComputed { index: delta as i64 },
        if db_accepted(a, delta) {
            Event::WriteAccepted { index: delta as i64 }
        } else {
            Event::WriteRejected { index: delta as i64 }
        },
        Event::Resumed,
        Event::Observed { outcome: db_outcome(a, delta, payload), value: db_final(a, delta, payload) },
    ]
}

/// Run one DynamicBoundsBypass variant.
///
/// A fresh record sits at `base`, its two-element storage at `elems_base`,
/// and a heap-held add-two callable at `cell_location`.  The bookkeeping's
/// address is exposed, the adversary may overwrite claimed length and
/// capacity, and the safe side resumes: it computes the index of the cell
/// relative to the first element, writes `payload` there behind a bounds
/// check against the claimed length, and invokes through the cell.  The
/// contract pins the landing site of an accepted write to exactly the
/// cell's address, and that the element storage comes back untouched.
pub fn run_dynamic_bounds_bypass(
    base: i64,
    elems_base: i64,
    cell_location: i64,
    payload: i64,
    variant: u64,
    action: &MetadataAction,
) -> (res: (Report, Data, HeapCell))
    requires
        base_ok(base),
        layout_ok(elems_base, cell_location),
    ensures
        res.0.family == Family::DynamicBoundsBypass,
        res.0.variant == variant,
        res.0.corrupted == db_corrupts(*action),
        res.0.events@ == db_events(
            (base + VECS_OFFSET) as i64,
            index_delta(elems_base, cell_location),
            *action,
            payload,
        ),
        res.0.outcome == db_outcome(*action, index_delta(elems_base, cell_location), payload),
        res.0.final_val == db_final(*action, index_delta(elems_base, cell_location), payload),
        trace_wf(res.0.events@),
        res.1.vals@ == seq![
            db_final(*action, index_delta(elems_base, cell_location), payload),
            2i64,
            3i64,
        ],
        res.1.cb == CallTarget::Valid(CallableId::AddOne),
        res.1.cb2 == CallTarget::Valid(CallableId::AddTwo),
        res.1.vecs.elems@ == seq![4i64, 5i64],
        res.1.vecs.length == claimed_length(*action),
        res.1.vecs.capacity == claimed_capacity(*action),
        res.2.addr == cell_location,
        res.2.content == db_cell_after(*action, index_delta(elems_base, cell_location), payload),
        !db_corrupts(*action) ==> res.1.vecs.metadata_intact(),
        db_accepted(*action, index_delta(elems_base, cell_location))
            ==> !res.1.vecs.metadata_intact(),
        index_delta(elems_base, cell_location) >= 2,
        elems_base + 8 * index_delta(elems_base, cell_location) == cell_location,
{
    let ghost delta_spec = index_delta(elems_base, cell_location);
    let mut d = Data::fresh();
    let mut cell = alloc_cell(cell_location, CallTarget::Valid(CallableId::AddTwo));
    let exposed = vecs_addr(base);
    let mut events: Vec<Event> = Vec::new();
    events.push(Event::Created(snapshot(&d)));
    events.push(Event::Granted(Capability::MetadataWrite { addr: exposed }));
    let corrupted: bool;
    match action {
        MetadataAction::Decline => {
            corrupted = false;
            events.push(Event::Declined);
        },
        MetadataAction::SetBookkeeping { length, capacity } => {
            corrupted = true;
            d.vecs.length = *length;
            d.vecs.capacity = *capacity;
            events.push(Event::Corrupted);
        },
    }
    events.push(Event::PostRecord(snapshot(&d)));
    let diff: i64 = cell_location - elems_base;
    let delta_wide: u64 = (diff as u64) / 8;
    let delta: i64 = delta_wide as i64;
    proof {
        assert(diff % 8 == 0);
        assert(delta == delta_spec);
        assert(elems_base + 8 * delta_spec == cell_location);
        assert(delta_spec >= 2);
    }
    events.push(Event::IndexComputed { index: delta });
    let disp = d.vecs.checked_write(delta, payload);
    proof {
        assert(disp != WriteOutcome::InBuffer);
    }
    if disp == WriteOutcome::Rejected {
        events.push(Event::WriteRejected { index: delta });
    } else {
        events.push(Event::WriteAccepted { index: delta });
        cell.overwrite(payload);
    }
    events.push(Event::Resumed);
    let mut x = d.read_slot(0);
    let outcome = cell.invoke(&mut x);
    d.write_slot(0, x);
    events.push(Event::Observed { outcome, value: x });
    proof {
        assert(cell.content == db_cell_after(*action, delta_spec, payload));
        assert(d.vals@ =~= seq![db_final(*action, delta_spec, payload), 2i64, 3i64]);
        assert(d.vecs.elems@ =~= seq![4i64, 5i64]);
        assert(events@ =~= db_events((base + VECS_OFFSET) as i64, delta_spec, *action, payload));
        lemma_trace_wf_eight(events@);
    }
    let r = Report {
        family: Family::DynamicBoundsBypass,
        variant,
        corrupted,
        events,
        outcome,
        final_val: x,
    };
    (r, d, cell)
}

/// The invariant broken and the symptom observed: when the check accepts an
/// index at or past the true element count, the claimed length must exceed
/// both that index and the true count — which only a metadata write can
/// bring about — and the nominally bounds-checked write replaces the heap
/// cell's callable with the written word's target.
pub proof fn lemma_dynamic_bounds_bypass(a: MetadataAction, delta: int, payload: i64)
    requires
        delta >= 2,
        db_accepted(a, delta),
    ensures
        claimed_length(a) > delta,
        claimed_length(a) > 2,
        !(a == MetadataAction::Decline),
        db_cell_after(a, delta, payload) == CellContent::Target(CallTarget::ForeignWord(payload)),
        db_outcome(a, delta, payload) == invoke_outcome(CallTarget::ForeignWord(payload)),
        payload != crate::callable::ADD_TWO_ADDR ==> db_outcome(a, delta, payload)
            != InvokeOutcome::Ran(CallableId::AddTwo),
{
}

/// Idempotence of the no-op variant: with intact bookkeeping the check
/// rejects the out-of-allocation index, so the declined run's trace depends
/// only on the exposed address and the layout — not even on the payload —
/// and two such runs have the identical trace.
pub proof fn lemma_dynamic_declined_trace_deterministic(
    vaddr: i64,
    delta: int,
    p1: i64,
    p2: i64,
    t1: Seq<Event>,
    t2: Seq<Event>,
)
    requires
        delta >= 2,
        t1 == db_events(vaddr, delta, MetadataAction::Decline, p1),
        t2 == db_events(vaddr, delta, MetadataAction::Decline, p2),
    ensures
        t1 == t2,
{
    assert(t1 =~= t2);
}

} // verus!
