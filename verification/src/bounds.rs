//! BoundsBypass: a fixed-buffer base address defeats bounds containment.
//!
//! The safe side exposes the base address of the record's fixed slots.  The
//! adversary's capability is a contiguous block of words written from that
//! base with no upper bound, so a block longer than the buffer overwrites
//! the fields laid out after it — first of all the primary call target, one
//! word past the last slot.  The safe side then resumes by invoking the
//! primary target exactly as before; if the block reached the target's word,
//! adversary-chosen code runs in its place.

use vstd::prelude::*;
use crate::adversary::{BoundsAction, Capability, block_of};
use crate::callable::{CallTarget, CallableId, InvokeOutcome, invoke_outcome, invoke_value,
    invoke_target};
use crate::exposure::{CB_WORD, LEN_WORD, CAP_WORD, CB2_WORD, base_ok, vals_addr};
use crate::record::{Data, RecordSnapshot, fresh_snapshot, snapshot};
use crate::trace::{Event, Family, Report, trace_wf, lemma_trace_wf_six};

verus! {

/// The fixed slots a fresh record starts with.
pub open spec fn fresh_slot(i: int) -> i64 {
    if i == 0 {
        1
    } else if i == 1 {
        2
    } else {
        3
    }
}

/// Fixed slot `i` after the block `w` is written from the buffer's base.
pub open spec fn slot_after(w: Seq<i64>, i: int) -> i64 {
    if 0 <= i < 3 && i < w.len() {
        w[i]
    } else {
        fresh_slot(i)
    }
}

/// The primary call target after the block write: a block that reaches one
/// word past the fixed slots replaces it with a raw foreign word.
pub open spec fn cb_after(w: Seq<i64>) -> CallTarget {
    if w.len() > CB_WORD {
        CallTarget::ForeignWord(w[CB_WORD as int])
    } else {
        CallTarget::Valid(CallableId::AddOne)
    }
}

/// The claimed length after the block write.
pub open spec fn length_after(w: Seq<i64>) -> i64 {
    if w.len() > LEN_WORD {
        w[LEN_WORD as int]
    } else {
        2
    }
}

/// The claimed capacity after the block write.
pub open spec fn capacity_after(w: Seq<i64>) -> i64 {
    if w.len() > CAP_WORD {
        w[CAP_WORD as int]
    } else {
        2
    }
}

/// The secondary call target after the block write.
pub open spec fn cb2_after(w: Seq<i64>) -> CallTarget {
    if w.len() > CB2_WORD {
        CallTarget::ForeignWord(w[CB2_WORD as int])
    } else {
        CallTarget::Valid(CallableId::AddTwo)
    }
}

/// The record as the block write leaves it, as the trace shows it.
pub open spec fn bb_snapshot(w: Seq<i64>) -> RecordSnapshot {
    RecordSnapshot {
        val0: slot_after(w, 0),
        cb: cb_after(w),
        length: length_after(w),
        capacity: capacity_after(w),
        vecs0: 4,
        cb2: cb2_after(w),
    }
}

/// The outcome the resumed invocation of the primary target observes.
pub open spec fn bb_outcome(w: Seq<i64>) -> InvokeOutcome {
    invoke_outcome(cb_after(w))
}

/// The value the first fixed slot holds after the resumed invocation.
pub open spec fn bb_final(w: Seq<i64>) -> i64 {
    invoke_value(cb_after(w), slot_after(w, 0))
}

/// The full trace of a BoundsBypass run with block `w` at base `base`.
pub open spec fn bb_events(base: i64, w: Seq<i64>) -> Seq<Event> {
    seq![
        Event::Created(fresh_snapshot()),
        Event::Granted(Capability::FixedBufferWrite { base }),
        if w.len() == 0 {
            Event::Declined
        } else {
            Event::Corrupted
        },
        Event::PostRecord(bb_snapshot(w)),
        Event::Resumed,
        Event::Observed { outcome: bb_outcome(w), value: bb_final(w) },
    ]
}

/// Write the block into the record as raw memory laid out from the
/// fixed-slot base: words 0 to 2 are the slots themselves, and each further
/// word lands on the field stored there — the primary target, the claimed
/// length and capacity, the secondary target.  The element storage of the
/// growable sequence lies elsewhere and is never touched; words past the
/// record fall outside the modeled layout.
fn apply_block(d: &mut Data, w: &Vec<i64>)
    requires
        old(d).vals@.len() == 3,
    ensures
        final(d).vals@.len() == 3,
        forall|i: int|
            0 <= i < 3 ==> final(d).vals@[i] == (if i < w@.len() {
                w@[i]
            } else {
                old(d).vals@[i]
            }),
        final(d).cb == (if w@.len() > CB_WORD {
            CallTarget::ForeignWord(w@[CB_WORD as int])
        } else {
            old(d).cb
        }),
        final(d).vecs.length == (if w@.len() > LEN_WORD {
            w@[LEN_WORD as int]
        } else {
            old(d).vecs.length
        }),
        final(d).vecs.capacity == (if w@.len() > CAP_WORD {
            w@[CAP_WORD as int]
        } else {
            old(d).vecs.capacity
        }),
        final(d).cb2 == (if w@.len() > CB2_WORD {
            CallTarget::ForeignWord(w@[CB2_WORD as int])
        } else {
            old(d).cb2
        }),
        final(d).vecs.elems == old(d).vecs.elems,
{
    let n = w.len();
    if n > 0 {
        d.vals[0] = w[0];
    }
    if n > 1 {
        d.vals[1] = w[1];
    }
    if n > 2 {
        d.vals[2] = w[2];
    }
    if n > CB_WORD {
        d.cb = CallTarget::ForeignWord(w[CB_WORD]);
    }
    if n > LEN_WORD {
        d.vecs.length = w[LEN_WORD];
    }
    if n > CAP_WORD {
        d.vecs.capacity = w[CAP_WORD];
    }
    if n > CB2_WORD {
        d.cb2 = CallTarget::ForeignWord(w[CB2_WORD]);
    }
}

/// Run one BoundsBypass variant: create a fresh record at `base`, expose the
/// fixed buffer's base address, let the adversary write its block, then
/// resume by invoking the primary target on the first slot.
///
/// The returned record shows the post-attack state; the report's trace,
/// outcome and final value are exact functions of the written block alone.
pub fn run_bounds_bypass(base: i64, variant: u64, action: &BoundsAction) -> (res: (Report, Data))
    requires
        base_ok(base),
    ensures
        res.0.family == Family::BoundsBypass,
        res.0.variant == variant,
        res.0.corrupted == (block_of(*action).len() > 0),
        res.0.events@ == bb_events(base, block_of(*action)),
        res.0.outcome == bb_outcome(block_of(*action)),
        res.0.final_val == bb_final(block_of(*action)),
        trace_wf(res.0.events@),
        res.1.vals@ == seq![
            bb_final(block_of(*action)),
            slot_after(block_of(*action), 1),
            slot_after(block_of(*action), 2),
        ],
        res.1.cb == cb_after(block_of(*action)),
        res.1.vecs.length == length_after(block_of(*action)),
        res.1.vecs.capacity == capacity_after(block_of(*action)),
        res.1.vecs.elems@ == seq![4i64, 5i64],
        res.1.cb2 == cb2_after(block_of(*action)),
{
    let ghost w = block_of(*action);
    let mut d = Data::fresh();
    let exposed = vals_addr(base);
    let mut events: Vec<Event> = Vec::new();
    events.push(Event::Created(snapshot(&d)));
    events.push(Event::Granted(Capability::FixedBufferWrite { base: exposed }));
    let mut corrupted = false;
    match action {
        BoundsAction::Decline => {
            events.push(Event::Declined);
        },
        BoundsAction::WriteBlock(block) => {
            if block.len() == 0 {
                events.push(Event::Declined);
            } else {
                corrupted = true;
                events.push(Event::Corrupted);
            }
            apply_block(&mut d, block);
        },
    }
    events.push(Event::PostRecord(snapshot(&d)));
    events.push(Event::Resumed);
    let mut x = d.read_slot(0);
    let outcome = invoke_target(&d.cb, &mut x);
    d.write_slot(0, x);
    events.push(Event::Observed { outcome, value: x });
    proof {
        assert(d.cb == cb_after(w));
        assert(d.vals@[0] == bb_final(w));
        assert(d.vals@ =~= seq![bb_final(w), slot_after(w, 1), slot_after(w, 2)]);
        assert(events@ =~= bb_events(base, w));
        lemma_trace_wf_six(events@);
    }
    let r = Report {
        family: Family::BoundsBypass,
        variant,
        corrupted,
        events,
        outcome,
        final_val: x,
    };
    (r, d)
}

/// The invariant broken and the symptom observed: writing any block that
/// reaches one word past the fixed slots replaces the primary call target
/// with the foreign word written there, and the resumed invocation then
/// executes that word's target — never the original add-one callable, unless
/// the adversary chose add-one's own code address.
pub proof fn lemma_bounds_bypass_redirects(w: Seq<i64>)
    requires
        w.len() > CB_WORD,
    ensures
        cb_after(w) == CallTarget::ForeignWord(w[CB_WORD as int]),
        bb_outcome(w) == invoke_outcome(CallTarget::ForeignWord(w[CB_WORD as int])),
        w[CB_WORD as int] != crate::callable::ADD_ONE_ADDR ==> bb_outcome(w) != InvokeOutcome::Ran(
            CallableId::AddOne,
        ),
        w[CB_WORD as int] == crate::callable::SENTINEL_ADDR ==> bb_outcome(w) == InvokeOutcome::Ran(
            CallableId::Sentinel,
        ),
{
}

/// A block too short to reach past the fixed slots corrupts data at most:
/// the call targets and the bookkeeping keep their pre-attack values, and
/// the resumed invocation still runs add-one.
pub proof fn lemma_bounds_bypass_contained(w: Seq<i64>)
    requires
        w.len() <= CB_WORD,
    ensures
        cb_after(w) == CallTarget::Valid(CallableId::AddOne),
        cb2_after(w) == CallTarget::Valid(CallableId::AddTwo),
        length_after(w) == 2,
        capacity_after(w) == 2,
        bb_outcome(w) == InvokeOutcome::Ran(CallableId::AddOne),
{
}

/// Idempotence of the no-op variant: a declined run's trace is a function
/// of the exposed base alone, so running it twice gives the identical trace.
pub proof fn lemma_bounds_declined_trace_deterministic(base: i64, t1: Seq<Event>, t2: Seq<Event>)
    requires
        t1 == bb_events(base, Seq::empty()),
        t2 == bb_events(base, Seq::empty()),
    ensures
        t1 == t2,
{
}

} // verus!
