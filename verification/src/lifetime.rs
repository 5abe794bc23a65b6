//! LifetimeBypass: a referent's lifetime ends before the reference's last use.
//!
//! The safe side allocates a heap cell holding the add-two callable, keeps a
//! reference to it, and exposes the cell's raw address.  The adversary's
//! capability is to overwrite or free the storage at that address before the
//! safe side's next invocation through the very same reference.  The resumed
//! call therefore observes whatever occupies the storage now — foreign code,
//! or freed memory — a counterexample to the rule that a referent must
//! outlive every use of its reference.

use vstd::prelude::*;
use crate::adversary::{AddressAction, Capability};
use crate::callable::{CallTarget, CallableId, InvokeOutcome};
use crate::exposure::cell_addr;
use crate::record::{CellContent, Data, HeapCell, alloc_cell, cell_outcome, cell_value,
    fresh_data_with_val0, fresh_snapshot, snapshot};
use crate::trace::{Event, Family, Report, trace_wf, lemma_trace_wf_six};

verus! {

/// The cell's storage after the adversary's use of its address capability.
pub open spec fn cell_after(a: AddressAction) -> CellContent {
    match a {
        AddressAction::Decline => CellContent::Target(CallTarget::Valid(CallableId::AddTwo)),
        AddressAction::Overwrite(w) => CellContent::Target(CallTarget::ForeignWord(w)),
        AddressAction::Free => CellContent::Freed,
    }
}

/// Whether the action changed the storage at all.
pub open spec fn lb_corrupts(a: AddressAction) -> bool {
    !(a == AddressAction::Decline)
}

/// The outcome the invocation through the stale reference observes.
pub open spec fn lb_outcome(a: AddressAction) -> InvokeOutcome {
    cell_outcome(cell_after(a))
}

/// The value the first fixed slot holds afterwards.
pub open spec fn lb_final(a: AddressAction) -> i64 {
    cell_value(cell_after(a), 1)
}

/// The full trace of a LifetimeBypass run against a cell at `addr`.
pub open spec fn lb_events(addr: i64, a: AddressAction) -> Seq<Event> {
    seq![
        Event::Created(fresh_snapshot()),
        Event::Granted(Capability::AddressWrite { addr }),
        if lb_corrupts(a) {
            Event::Corrupted
        } else {
            Event::Declined
        },
        Event::PostCell(cell_after(a)),
        Event::Resumed,
        Event::Observed { outcome: lb_outcome(a), value: lb_final(a) },
    ]
}

/// Run one LifetimeBypass variant: allocate a heap-held add-two callable at
/// `cell_location`, expose that address, let the adversary overwrite or free
/// the backing storage, then resume by invoking through the same reference
/// the safe side held all along.
pub fn run_lifetime_bypass(cell_location: i64, variant: u64, action: &AddressAction) -> (res: (
    Report,
    Data,
    HeapCell,
))
    ensures
        res.0.family == Family::LifetimeBypass,
        res.0.variant == variant,
        res.0.corrupted == lb_corrupts(*action),
        res.0.events@ == lb_events(cell_location, *action),
        res.0.outcome == lb_outcome(*action),
        res.0.final_val == lb_final(*action),
        trace_wf(res.0.events@),
        fresh_data_with_val0(res.1, lb_final(*action)),
        res.2.addr == cell_location,
        res.2.content == cell_after(*action),
{
    let mut d = Data::fresh();
    let mut cell = alloc_cell(cell_location, CallTarget::Valid(CallableId::AddTwo));
    let exposed = cell_addr(&cell);
    let mut events: Vec<Event> = Vec::new();
    events.push(Event::Created(snapshot(&d)));
    events.push(Event::Granted(Capability::AddressWrite { addr: exposed }));
    let corrupted: bool;
    match action {
        AddressAction::Decline => {
            corrupted = false;
            events.push(Event::Declined);
        },
        AddressAction::Overwrite(w) => {
            corrupted = true;
            cell.overwrite(*w);
            events.push(Event::Corrupted);
        },
        AddressAction::Free => {
            corrupted = true;
            cell.free();
            events.push(Event::Corrupted);
        },
    }
    events.push(Event::PostCell(cell.content));
    events.push(Event::Resumed);
    let mut x = d.read_slot(0);
    let outcome = cell.invoke(&mut x);
    d.write_slot(0, x);
    events.push(Event::Observed { outcome, value: x });
    proof {
        assert(cell.content == cell_after(*action));
        assert(d.vals@ =~= seq![lb_final(*action), 2i64, 3i64]);
        assert(events@ =~= lb_events(cell_location, *action));
        lemma_trace_wf_six(events@);
    }
    let r = Report {
        family: Family::LifetimeBypass,
        variant,
        corrupted,
        events,
        outcome,
        final_val: x,
    };
    (r, d, cell)
}

/// The invariant broken and the symptom observed: once the backing storage
/// is overwritten, the invocation through the stale reference observes the
/// new content at that address — the word's own target, never the add-two
/// callable it replaced (unless the foreign word is add-two's own code
/// address) — and a freed storage makes the same invocation a use-after-free.
pub proof fn lemma_lifetime_bypass_stale_reference(w: i64)
    ensures
        cell_after(AddressAction::Overwrite(w)) == CellContent::Target(CallTarget::ForeignWord(w)),
        lb_outcome(AddressAction::Overwrite(w)) == crate::callable::invoke_outcome(
            CallTarget::ForeignWord(w),
        ),
        w != crate::callable::ADD_TWO_ADDR ==> lb_outcome(AddressAction::Overwrite(w))
            != InvokeOutcome::Ran(CallableId::AddTwo),
        lb_outcome(AddressAction::Free) == InvokeOutcome::UseAfterFree,
{
}

/// Idempotence of the no-op variant: a declined run's trace is a function of
/// the exposed address alone, so running it twice gives the identical trace.
pub proof fn lemma_lifetime_declined_trace_deterministic(
    addr: i64,
    t1: Seq<Event>,
    t2: Seq<Event>,
)
    requires
        t1 == lb_events(addr, AddressAction::Decline),
        t2 == lb_events(addr, AddressAction::Decline),
    ensures
        t1 == t2,
{
}

} // verus!
