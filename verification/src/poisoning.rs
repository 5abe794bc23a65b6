//! CallbackPoisoning: adversary data becomes a callable with no provenance.
//!
//! No address of the record crosses the boundary.  Instead the safe side
//! asks the adversary for an address, receives an arbitrary 64-bit integer,
//! and converts it into a call target with no check of origin, liveness or
//! type — the purest trust violation, made explicit here as the transition
//! from a raw word to a `ForeignWord` target.  Resuming invokes that target:
//! the supplied word is trusted verbatim, so whatever the adversary chose to
//! name is what runs.  The intended interaction supplies the add-one
//! callable's own address; anything else redirects or faults.

use vstd::prelude::*;
use crate::adversary::Capability;
use crate::callable::{ADD_ONE_ADDR, CallTarget, CallableId, InvokeOutcome, code_at,
    invoke_outcome, invoke_value, invoke_target};
use crate::record::{Data, fresh_data_with_val0, fresh_snapshot, snapshot};
use crate::trace::{Event, Family, Report, trace_wf, lemma_trace_wf_seven};

verus! {

/// Whether the supplied word departs from the intended interaction, which
/// hands back the add-one callable's own address.
pub open spec fn cp_corrupts(supplied: i64) -> bool {
    supplied != ADD_ONE_ADDR
}

/// The poisoned target: the supplied word, trusted verbatim.
pub open spec fn poisoned_target(supplied: i64) -> CallTarget {
    CallTarget::ForeignWord(supplied)
}

/// The outcome the invocation of the poisoned target observes.
pub open spec fn cp_outcome(supplied: i64) -> InvokeOutcome {
    invoke_outcome(poisoned_target(supplied))
}

/// The value the first fixed slot holds afterwards.
pub open spec fn cp_final(supplied: i64) -> i64 {
    invoke_value(poisoned_target(supplied), 1)
}

/// The full trace of a CallbackPoisoning run with the supplied word.
pub open spec fn cp_events(supplied: i64) -> Seq<Event> {
    seq![
        Event::Created(fresh_snapshot()),
        Event::Granted(Capability::SupplyCallback),
        Event::Supplied { addr: supplied },
        Event::PostRecord(fresh_snapshot()),
        Event::Poisoned { raw: supplied },
        Event::Resumed,
        Event::Observed { outcome: cp_outcome(supplied), value: cp_final(supplied) },
    ]
}

/// Run one CallbackPoisoning variant: grant the supply capability, take the
/// integer the adversary returns, convert it into a call target with no
/// provenance check, and resume by invoking it on the first fixed slot.
/// The returned target is the poisoned reference itself.
pub fn run_callback_poisoning(supplied: i64, variant: u64) -> (res: (Report, Data, CallTarget))
    ensures
        res.0.family == Family::CallbackPoisoning,
        res.0.variant == variant,
        res.0.corrupted == cp_corrupts(supplied),
        res.0.events@ == cp_events(supplied),
        res.0.outcome == cp_outcome(supplied),
        res.0.final_val == cp_final(supplied),
        trace_wf(res.0.events@),
        fresh_data_with_val0(res.1, cp_final(supplied)),
        res.2 == poisoned_target(supplied),
{
    let mut d = Data::fresh();
    let mut events: Vec<Event> = Vec::new();
    events.push(Event::Created(snapshot(&d)));
    events.push(Event::Granted(Capability::SupplyCallback));
    events.push(Event::Supplied { addr: supplied });
    events.push(Event::PostRecord(snapshot(&d)));
    let target = CallTarget::ForeignWord(supplied);
    events.push(Event::Poisoned { raw: supplied });
    let corrupted = supplied != ADD_ONE_ADDR;
    events.push(Event::Resumed);
    let mut x = d.read_slot(0);
    let outcome = invoke_target(&target, &mut x);
    d.write_slot(0, x);
    events.push(Event::Observed { outcome, value: x });
    proof {
        assert(d.vals@ =~= seq![cp_final(supplied), 2i64, 3i64]);
        assert(events@ =~= cp_events(supplied));
        lemma_trace_wf_seven(events@);
    }
    let r = Report {
        family: Family::CallbackPoisoning,
        variant,
        corrupted,
        events,
        outcome,
        final_val: x,
    };
    (r, d, target)
}

/// The invariant absent by design and the symptom: the supplied integer is
/// invoked verbatim.  A word naming a known callable runs exactly that
/// callable — the adversary picks what executes — and a word naming no code
/// address is a wild jump reporting that very word.
pub proof fn lemma_callback_poisoning_verbatim(supplied: i64)
    ensures
        cp_outcome(supplied) == invoke_outcome(CallTarget::ForeignWord(supplied)),
        code_at(supplied) matches Some(id) ==> cp_outcome(supplied) == InvokeOutcome::Ran(id),
        code_at(supplied) is None ==> cp_outcome(supplied) == InvokeOutcome::WildJump(supplied),
{
}

/// Idempotence of the no-op variant: the trace is a function of the supplied
/// word alone, so two runs given the same word — in particular the intended
/// add-one address — have the identical trace.
pub proof fn lemma_poisoning_trace_deterministic(supplied: i64, t1: Seq<Event>, t2: Seq<Event>)
    requires
        t1 == cp_events(supplied),
        t2 == cp_events(supplied),
    ensures
        t1 == t2,
{
}

} // verus!
