//! The cross-family guarantee: a declined capability changes nothing.
//!
//! Each family's run is an exact function of the adversary's action, so the
//! no-op use of every capability can be evaluated once and for all: the
//! resumed call reproduces the uncorrupted baseline.  The families that
//! resume the record's primary target or the intended callback run add-one
//! on the first slot's initial value 1 and leave 2; those that resume a heap
//! or local reference run the add-two callable held there and leave 3.

use vstd::prelude::*;
use crate::adversary::{AddressAction, MetadataAction, UnconstrainedAction};
use crate::callable::{ADD_ONE_ADDR, CallableId, InvokeOutcome, sem};
use crate::trace::Family;
use crate::bounds::{bb_final, bb_outcome};
use crate::dynbounds::{db_final, db_outcome};
use crate::hardening::{hb_final, hb_outcome};
use crate::lifetime::{lb_final, lb_outcome};
use crate::poisoning::{cp_corrupts, cp_final, cp_outcome};

verus! {

/// The safe callable each family's resumed call runs when nothing was
/// corrupted: the primary target (add-one) where the record's own target or
/// the intended callback resumes, and the add-two callable where a heap or
/// local reference to it does.
pub open spec fn baseline_callable(f: Family) -> CallableId {
    match f {
        Family::BoundsBypass => CallableId::AddOne,
        Family::LifetimeBypass => CallableId::AddTwo,
        Family::HardeningBypass => CallableId::AddTwo,
        Family::DynamicBoundsBypass => CallableId::AddTwo,
        Family::CallbackPoisoning => CallableId::AddOne,
    }
}

/// The value an uncorrupted resumed call leaves in the first fixed slot.
pub open spec fn baseline_value(f: Family) -> i64 {
    sem(baseline_callable(f), 1)
}

/// For every family, the no-op use of its capability leaves the resumed
/// call reproducing the exact pre-attack baseline: the family's own safe
/// callable runs on the initial slot value 1 — add-one yields 2 where the
/// record's primary target or the intended callback resumes, add-two yields
/// 3 where a heap or local reference to it does.
pub proof fn lemma_declined_runs_reproduce_baseline()
    ensures
        baseline_value(Family::BoundsBypass) == 2,
        baseline_value(Family::LifetimeBypass) == 3,
        baseline_value(Family::HardeningBypass) == 3,
        baseline_value(Family::DynamicBoundsBypass) == 3,
        baseline_value(Family::CallbackPoisoning) == 2,
        bb_outcome(Seq::empty()) == InvokeOutcome::Ran(baseline_callable(Family::BoundsBypass)),
        bb_final(Seq::empty()) == baseline_value(Family::BoundsBypass),
        lb_outcome(AddressAction::Decline) == InvokeOutcome::Ran(
            baseline_callable(Family::LifetimeBypass),
        ),
        lb_final(AddressAction::Decline) == baseline_value(Family::LifetimeBypass),
        hb_outcome(UnconstrainedAction::Decline) == InvokeOutcome::Ran(
            baseline_callable(Family::HardeningBypass),
        ),
        hb_final(UnconstrainedAction::Decline) == baseline_value(Family::HardeningBypass),
        forall|delta: int, payload: i64|
            delta >= 2 ==> #[trigger] db_outcome(MetadataAction::Decline, delta, payload)
                == InvokeOutcome::Ran(baseline_callable(Family::DynamicBoundsBypass)),
        forall|delta: int, payload: i64|
            delta >= 2 ==> #[trigger] db_final(MetadataAction::Decline, delta, payload)
                == baseline_value(Family::DynamicBoundsBypass),
        !cp_corrupts(ADD_ONE_ADDR),
        cp_outcome(ADD_ONE_ADDR) == InvokeOutcome::Ran(
            baseline_callable(Family::CallbackPoisoning),
        ),
        cp_final(ADD_ONE_ADDR) == baseline_value(Family::CallbackPoisoning),
{
}

} // verus!
