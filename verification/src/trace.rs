//! Run traces, the shared run state machine, and the per-variant report.
//!
//! Every family-variant run follows one machine: the record is created, a
//! capability is granted across the boundary, the adversary acts (or
//! declines), the safe side resumes its normal-looking operations, and the
//! outcome is observed.  A run's trace is a sequence of structured events
//! whose phases walk that machine forward; `trace_wf` states it, and every
//! run function ensures it of the trace it returns.

use vstd::prelude::*;
use crate::adversary::Capability;
use crate::callable::{CallTarget, InvokeOutcome};
use crate::record::{CellContent, RecordSnapshot};

verus! {

/// One step of a run, as the trace records it.
#[derive(Clone, Copy, PartialEq, Eq, Structural, Debug)]
pub enum Event {
    /// A fresh record was created, in this initial state.
    Created(RecordSnapshot),
    /// The capability handed across the boundary, with any address it
    /// carries.
    Granted(Capability),
    /// The adversary made no use of its capability.
    Declined,
    /// The adversary used its capability against the granted state.
    Corrupted,
    /// The adversary answered a callback request with this address.
    Supplied { addr: i64 },
    /// The record as the adversary's step left it.
    PostRecord(RecordSnapshot),
    /// The heap cell's storage as the adversary's step left it.
    PostCell(CellContent),
    /// The local call-target slot as the adversary's step left it.
    PostLocal(CallTarget),
    /// The safe side converted a raw foreign word into a call target with no
    /// provenance check.
    Poisoned { raw: i64 },
    /// The safe side derived this element index from two exposed addresses.
    IndexComputed { index: i64 },
    /// A bounds-checked write at this index passed the check.
    WriteAccepted { index: i64 },
    /// A bounds-checked write at this index was refused.
    WriteRejected { index: i64 },
    /// The safe side resumed its pre-exposure call sequence.
    Resumed,
    /// The resumed invocation's outcome and the value it left behind.
    Observed { outcome: InvokeOutcome, value: i64 },
}

/// The phases of the run state machine.
#[derive(Clone, Copy, PartialEq, Eq, Structural, Debug)]
pub enum Phase {
    Created,
    Exposed,
    Corrupted,
    Resumed,
    Observed,
}

/// The machine's order over phases.
pub open spec fn phase_index(p: Phase) -> int {
    match p {
        Phase::Created => 0,
        Phase::Exposed => 1,
        Phase::Corrupted => 2,
        Phase::Resumed => 3,
        Phase::Observed => 4,
    }
}

/// The phase an event belongs to.  A declined capability leaves the run in
/// the exposure window: the corruption phase is optional.  The post-adversary
/// snapshots belong to resumption: they show the state the safe side is
/// about to trust.
pub open spec fn event_phase(e: Event) -> Phase {
    match e {
        Event::Created(..) => Phase::Created,
        Event::Granted(..) => Phase::Exposed,
        Event::Declined => Phase::Exposed,
        Event::Corrupted => Phase::Corrupted,
        Event::Supplied { .. } => Phase::Corrupted,
        Event::PostRecord(..) => Phase::Resumed,
        Event::PostCell(..) => Phase::Resumed,
        Event::PostLocal(..) => Phase::Resumed,
        Event::Poisoned { .. } => Phase::Resumed,
        Event::IndexComputed { .. } => Phase::Resumed,
        Event::WriteAccepted { .. } => Phase::Resumed,
        Event::WriteRejected { .. } => Phase::Resumed,
        Event::Resumed => Phase::Resumed,
        Event::Observed { .. } => Phase::Observed,
    }
}

/// A trace that walks the run machine: it opens with creation, closes with
/// observation, passes through exposure and resumption, and never moves
/// backwards.
pub open spec fn trace_wf(t: Seq<Event>) -> bool {
    &&& t.len() >= 4
    &&& event_phase(t[0]) == Phase::Created
    &&& event_phase(t[t.len() - 1]) == Phase::Observed
    &&& forall|i: int, j: int|
        #![trigger event_phase(t[i]), event_phase(t[j])]
        0 <= i <= j < t.len() ==> phase_index(event_phase(t[i])) <= phase_index(event_phase(t[j]))
    &&& exists|i: int| 0 <= i < t.len() && #[trigger] event_phase(t[i]) == Phase::Exposed
    &&& exists|i: int| 0 <= i < t.len() && #[trigger] event_phase(t[i]) == Phase::Resumed
}

/// Every phase sits between creation and observation in the machine's order.
pub proof fn lemma_phase_index_range(p: Phase)
    ensures
        0 <= phase_index(p) <= 4,
{
}

/// A six-event trace in machine order is well formed.
pub proof fn lemma_trace_wf_six(t: Seq<Event>)
    requires
        t.len() == 6,
        event_phase(t[0]) == Phase::Created,
        event_phase(t[1]) == Phase::Exposed,
        event_phase(t[2]) == Phase::Exposed || event_phase(t[2]) == Phase::Corrupted,
        event_phase(t[3]) == Phase::Resumed,
        event_phase(t[4]) == Phase::Resumed,
        event_phase(t[5]) == Phase::Observed,
    ensures
        trace_wf(t),
{
    assert forall|i: int, j: int|
        #![trigger event_phase(t[i]), event_phase(t[j])]
        0 <= i <= j < t.len() implies phase_index(event_phase(t[i])) <= phase_index(
        event_phase(t[j]),
    ) by {
        lemma_phase_index_range(event_phase(t[i]));
        lemma_phase_index_range(event_phase(t[j]));
        if i == 0 {
        } else if j == 5 {
        } else if i == j {
        } else if i == 1 {
            if j == 2 {
            } else if j == 3 {
            } else {
                assert(j == 4);
            }
        } else if i == 2 {
            if j == 3 {
            } else {
                assert(j == 4);
            }
        } else {
            assert(i == 3 && j == 4);
        }
    }
    assert(event_phase(t[1]) == Phase::Exposed);
    assert(event_phase(t[3]) == Phase::Resumed);
}

/// A seven-event trace in machine order is well formed.
pub proof fn lemma_trace_wf_seven(t: Seq<Event>)
    requires
        t.len() == 7,
        event_phase(t[0]) == Phase::Created,
        event_phase(t[1]) == Phase::Exposed,
        event_phase(t[2]) == Phase::Exposed || event_phase(t[2]) == Phase::Corrupted,
        event_phase(t[3]) == Phase::Resumed,
        event_phase(t[4]) == Phase::Resumed,
        event_phase(t[5]) == Phase::Resumed,
        event_phase(t[6]) == Phase::Observed,
    ensures
        trace_wf(t),
{
    assert forall|i: int, j: int|
        #![trigger event_phase(t[i]), event_phase(t[j])]
        0 <= i <= j < t.len() implies phase_index(event_phase(t[i])) <= phase_index(
        event_phase(t[j]),
    ) by {
        lemma_phase_index_range(event_phase(t[i]));
        lemma_phase_index_range(event_phase(t[j]));
        if i == 0 {
        } else if j == 6 {
        } else if i == j {
        } else if i == 1 {
            if j == 2 {
            } else if j == 3 {
            } else if j == 4 {
            } else {
                assert(j == 5);
            }
        } else if i == 2 {
            if j == 3 {
            } else if j == 4 {
            } else {
                assert(j == 5);
            }
        } else if i == 3 {
            if j == 4 {
            } else {
                assert(j == 5);
            }
        } else {
            assert(i == 4 && j == 5);
        }
    }
    assert(event_phase(t[1]) == Phase::Exposed);
    assert(event_phase(t[3]) == Phase::Resumed);
}

/// An eight-event trace in machine order is well formed.
pub proof fn lemma_trace_wf_eight(t: Seq<Event>)
    requires
        t.len() == 8,
        event_phase(t[0]) == Phase::Created,
        event_phase(t[1]) == Phase::Exposed,
        event_phase(t[2]) == Phase::Exposed || event_phase(t[2]) == Phase::Corrupted,
        event_phase(t[3]) == Phase::Resumed,
        event_phase(t[4]) == Phase::Resumed,
        event_phase(t[5]) == Phase::Resumed,
        event_phase(t[6]) == Phase::Resumed,
        event_phase(t[7]) == Phase::Observed,
    ensures
        trace_wf(t),
{
    assert forall|i: int, j: int|
        #![trigger event_phase(t[i]), event_phase(t[j])]
        0 <= i <= j < t.len() implies phase_index(event_phase(t[i])) <= phase_index(
        event_phase(t[j]),
    ) by {
        lemma_phase_index_range(event_phase(t[i]));
        lemma_phase_index_range(event_phase(t[j]));
        if i == 0 {
        } else if j == 7 {
        } else if i == j {
        } else if i == 1 {
            if j == 2 {
            } else if j == 3 {
            } else if j == 4 {
            } else if j == 5 {
            } else {
                assert(j == 6);
            }
        } else if i == 2 {
            if j == 3 {
            } else if j == 4 {
            } else if j == 5 {
            } else {
                assert(j == 6);
            }
        } else if i == 3 {
            if j == 4 {
            } else if j == 5 {
            } else {
                assert(j == 6);
            }
        } else if i == 4 {
            if j == 5 {
            } else {
                assert(j == 6);
            }
        } else {
            assert(i == 5 && j == 6);
        }
    }
    assert(event_phase(t[1]) == Phase::Exposed);
    assert(event_phase(t[3]) == Phase::Resumed);
}

/// The five attack families.
#[derive(Clone, Copy, PartialEq, Eq, Structural, Debug)]
pub enum Family {
    BoundsBypass,
    LifetimeBypass,
    HardeningBypass,
    DynamicBoundsBypass,
    CallbackPoisoning,
}

/// What one family-variant run reports: the family and variant label, whether
/// the adversary changed any state, the trace, and the resumed invocation's
/// outcome and final value.
#[derive(Clone, PartialEq, Eq, Debug)]
pub struct Report {
    pub family: Family,
    pub variant: u64,
    pub corrupted: bool,
    pub events: Vec<Event>,
    pub outcome: InvokeOutcome,
    pub final_val: i64,
}

} // verus!
