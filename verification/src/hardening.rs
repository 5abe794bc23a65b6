//! HardeningBypass: exposing no address is not protection in itself.
//!
//! A local variable of the safe side holds the add-two callable.  No part
//! of the record, and no address at all, crosses the boundary: the adversary
//! is invoked empty-handed, modeling a co-resident component able to
//! interfere with stack and control data by means outside any pointer it was
//! handed.  If its write reaches the slot backing the local callable, the
//! safe side's resumed call through that local runs redirected code — so
//! withholding addresses does not bound an adversary whose capability is
//! broader than the explicit boundary traffic.

use vstd::prelude::*;
use crate::adversary::{Capability, UnconstrainedAction};
use crate::callable::{CallTarget, CallableId, InvokeOutcome, invoke_outcome, invoke_value,
    invoke_target};
use crate::record::{Data, fresh_data_with_val0, fresh_snapshot, snapshot};
use crate::trace::{Event, Family, Report, trace_wf, lemma_trace_wf_six};

verus! {

/// The local call-target slot after the adversary's unconstrained step.
pub open spec fn local_after(a: UnconstrainedAction) -> CallTarget {
    match a {
        UnconstrainedAction::Decline => CallTarget::Valid(CallableId::AddTwo),
        UnconstrainedAction::Smash(w) => CallTarget::ForeignWord(w),
    }
}

/// Whether the adversary's step changed the local slot.
pub open spec fn hb_corrupts(a: UnconstrainedAction) -> bool {
    !(a == UnconstrainedAction::Decline)
}

/// The outcome the resumed call through the local slot observes.
pub open spec fn hb_outcome(a: UnconstrainedAction) -> InvokeOutcome {
    invoke_outcome(local_after(a))
}

/// The value the first fixed slot holds afterwards.
pub open spec fn hb_final(a: UnconstrainedAction) -> i64 {
    invoke_value(local_after(a), 1)
}

/// The full trace of a HardeningBypass run.  No address appears in it: the
/// capability carries none.
pub open spec fn hb_events(a: UnconstrainedAction) -> Seq<Event> {
    seq![
        Event::Created(fresh_snapshot()),
        Event::Granted(Capability::Unconstrained),
        if hb_corrupts(a) {
            Event::Corrupted
        } else {
            Event::Declined
        },
        Event::PostLocal(local_after(a)),
        Event::Resumed,
        Event::Observed { outcome: hb_outcome(a), value: hb_final(a) },
    ]
}

/// Run one HardeningBypass variant: hold the add-two callable in a local
/// slot, invoke the adversary with no argument, then resume by calling
/// through the local slot as before.  The returned target is the local
/// slot's final content.
pub fn run_hardening_bypass(variant: u64, action: &UnconstrainedAction) -> (res: (
    Report,
    Data,
    CallTarget,
))
    ensures
        res.0.family == Family::HardeningBypass,
        res.0.variant == variant,
        res.0.corrupted == hb_corrupts(*action),
        res.0.events@ == hb_events(*action),
        res.0.outcome == hb_outcome(*action),
        res.0.final_val == hb_final(*action),
        trace_wf(res.0.events@),
        fresh_data_with_val0(res.1, hb_final(*action)),
        res.2 == local_after(*action),
{
    let mut d = Data::fresh();
    let mut local_target = CallTarget::Valid(CallableId::AddTwo);
    let mut events: Vec<Event> = Vec::new();
    events.push(Event::Created(snapshot(&d)));
    events.push(Event::Granted(Capability::Unconstrained));
    let corrupted: bool;
    match action {
        UnconstrainedAction::Decline => {
            corrupted = false;
            events.push(Event::Declined);
        },
        UnconstrainedAction::Smash(w) => {
            corrupted = true;
            local_target = CallTarget::ForeignWord(*w);
            events.push(Event::Corrupted);
        },
    }
    events.push(Event::PostLocal(local_target));
    events.push(Event::Resumed);
    let mut x = d.read_slot(0);
    let outcome = invoke_target(&local_target, &mut x);
    d.write_slot(0, x);
    events.push(Event::Observed { outcome, value: x });
    proof {
        assert(local_target == local_after(*action));
        assert(d.vals@ =~= seq![hb_final(*action), 2i64, 3i64]);
        assert(events@ =~= hb_events(*action));
        lemma_trace_wf_six(events@);
    }
    let r = Report {
        family: Family::HardeningBypass,
        variant,
        corrupted,
        events,
        outcome,
        final_val: x,
    };
    (r, d, local_target)
}

/// The symptom: a write that reaches the local slot redirects the resumed
/// call to the foreign word's target, although no address was ever exposed —
/// the add-two callable runs again only if the word is its own address.
pub proof fn lemma_hardening_bypass_redirects(w: i64)
    ensures
        local_after(UnconstrainedAction::Smash(w)) == CallTarget::ForeignWord(w),
        hb_outcome(UnconstrainedAction::Smash(w)) == invoke_outcome(CallTarget::ForeignWord(w)),
        w != crate::callable::ADD_TWO_ADDR ==> hb_outcome(UnconstrainedAction::Smash(w))
            != InvokeOutcome::Ran(CallableId::AddTwo),
{
}

/// Idempotence of the no-op variant: the declined run's trace takes no
/// parameter at all, so two such runs have the identical trace.
pub proof fn lemma_hardening_declined_trace_deterministic(t1: Seq<Event>, t2: Seq<Event>)
    requires
        t1 == hb_events(UnconstrainedAction::Decline),
        t2 == hb_events(UnconstrainedAction::Decline),
    ensures
        t1 == t2,
{
}

} // verus!
