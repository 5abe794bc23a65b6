use trust_boundary::adversary::{
    AddressAction, BoundsAction, Capability, MetadataAction, UnconstrainedAction,
};
use trust_boundary::bounds::run_bounds_bypass;
use trust_boundary::callable::{
    ADD_ONE_ADDR, ADD_TWO_ADDR, SENTINEL_ADDR, CallTarget, CallableId, InvokeOutcome,
};
use trust_boundary::dynbounds::run_dynamic_bounds_bypass;
use trust_boundary::hardening::run_hardening_bypass;
use trust_boundary::lifetime::run_lifetime_bypass;
use trust_boundary::poisoning::run_callback_poisoning;
use trust_boundary::record::{CellContent, Data, RecordSnapshot, WriteOutcome};
use trust_boundary::trace::{Event, Family};

const BASE: i64 = 4096;

fn fresh_snapshot() -> RecordSnapshot {
    RecordSnapshot {
        val0: 1,
        cb: CallTarget::Valid(CallableId::AddOne),
        length: 2,
        capacity: 2,
        vecs0: 4,
        cb2: CallTarget::Valid(CallableId::AddTwo),
    }
}
const ELEMS: i64 = 8192;
const CELL: i64 = 8232;

#[test]
fn bounds_declined_reproduces_baseline() {
    let (r, d) = run_bounds_bypass(BASE, 1, &BoundsAction::Decline);
    assert_eq!(r.family, Family::BoundsBypass);
    assert!(!r.corrupted);
    assert_eq!(r.outcome, InvokeOutcome::Ran(CallableId::AddOne));
    assert_eq!(r.final_val, 2);
    assert_eq!(d.cb, CallTarget::Valid(CallableId::AddOne));
    assert_eq!(d.vals, vec![2, 2, 3]);
    let expected = vec![
        Event::Created(fresh_snapshot()),
        Event::Granted(Capability::FixedBufferWrite { base: BASE }),
        Event::Declined,
        Event::PostRecord(fresh_snapshot()),
        Event::Resumed,
        Event::Observed { outcome: InvokeOutcome::Ran(CallableId::AddOne), value: 2 },
    ];
    assert_eq!(r.events, expected);
}

#[test]
fn bounds_block_reaching_target_word_runs_the_sentinel() {
    let block = vec![10, 20, 30, SENTINEL_ADDR];
    let (r, d) = run_bounds_bypass(BASE, 2, &BoundsAction::WriteBlock(block));
    assert!(r.corrupted);
    assert_eq!(d.cb, CallTarget::ForeignWord(SENTINEL_ADDR));
    assert_eq!(r.outcome, InvokeOutcome::Ran(CallableId::Sentinel));
    assert_ne!(r.outcome, InvokeOutcome::Ran(CallableId::AddOne));
    assert_eq!(r.final_val, 10);
    assert_eq!(d.vals, vec![10, 20, 30]);
}

#[test]
fn bounds_block_within_buffer_corrupts_data_only() {
    let block = vec![7, 8];
    let (r, d) = run_bounds_bypass(BASE, 3, &BoundsAction::WriteBlock(block));
    assert!(r.corrupted);
    assert_eq!(d.cb, CallTarget::Valid(CallableId::AddOne));
    assert_eq!(d.cb2, CallTarget::Valid(CallableId::AddTwo));
    assert_eq!(d.vecs.length, 2);
    assert_eq!(r.outcome, InvokeOutcome::Ran(CallableId::AddOne));
    assert_eq!(r.final_val, 8);
    assert_eq!(d.vals, vec![8, 8, 3]);
}

#[test]
fn bounds_foreign_word_off_code_faults() {
    let block = vec![0, 0, 0, 12345];
    let (r, _d) = run_bounds_bypass(BASE, 4, &BoundsAction::WriteBlock(block));
    assert_eq!(r.outcome, InvokeOutcome::WildJump(12345));
    assert_eq!(r.final_val, 0);
}

#[test]
fn bounds_long_block_reaches_every_field() {
    let block = vec![0, 0, 0, ADD_ONE_ADDR, 50, 60, SENTINEL_ADDR];
    let (_r, d) = run_bounds_bypass(BASE, 5, &BoundsAction::WriteBlock(block));
    assert_eq!(d.vecs.length, 50);
    assert_eq!(d.vecs.capacity, 60);
    assert_eq!(d.cb2, CallTarget::ForeignWord(SENTINEL_ADDR));
    assert_eq!(d.vecs.elems, vec![4, 5]);
}

#[test]
fn lifetime_declined_reproduces_baseline() {
    let (r, _d, cell) = run_lifetime_bypass(CELL, 1, &AddressAction::Decline);
    assert_eq!(r.family, Family::LifetimeBypass);
    assert!(!r.corrupted);
    assert_eq!(r.outcome, InvokeOutcome::Ran(CallableId::AddTwo));
    assert_eq!(r.final_val, 3);
    assert_eq!(cell.content, CellContent::Target(CallTarget::Valid(CallableId::AddTwo)));
    assert!(r.events.contains(&Event::PostCell(CellContent::Target(CallTarget::Valid(
        CallableId::AddTwo,
    )))));
}

#[test]
fn lifetime_overwritten_storage_is_observed() {
    let (r, d, cell) = run_lifetime_bypass(CELL, 2, &AddressAction::Overwrite(ADD_ONE_ADDR));
    assert!(r.corrupted);
    assert_eq!(cell.content, CellContent::Target(CallTarget::ForeignWord(ADD_ONE_ADDR)));
    assert_eq!(r.outcome, InvokeOutcome::Ran(CallableId::AddOne));
    assert_ne!(r.outcome, InvokeOutcome::Ran(CallableId::AddTwo));
    assert_eq!(r.final_val, 2);
    assert_eq!(d.vals[0], 2);
}

#[test]
fn lifetime_freed_storage_is_a_use_after_free() {
    let (r, _d, cell) = run_lifetime_bypass(CELL, 3, &AddressAction::Free);
    assert_eq!(cell.content, CellContent::Freed);
    assert!(r.events.contains(&Event::PostCell(CellContent::Freed)));
    assert_eq!(r.outcome, InvokeOutcome::UseAfterFree);
    assert_eq!(r.final_val, 1);
}

#[test]
fn hardening_declined_reproduces_baseline() {
    let (r, _d, local) = run_hardening_bypass(1, &UnconstrainedAction::Decline);
    assert_eq!(r.family, Family::HardeningBypass);
    assert!(!r.corrupted);
    assert_eq!(local, CallTarget::Valid(CallableId::AddTwo));
    assert_eq!(r.outcome, InvokeOutcome::Ran(CallableId::AddTwo));
    assert_eq!(r.final_val, 3);
    assert!(r.events.contains(&Event::PostLocal(CallTarget::Valid(CallableId::AddTwo))));
}

#[test]
fn hardening_smashed_local_runs_the_sentinel() {
    let (r, _d, local) = run_hardening_bypass(2, &UnconstrainedAction::Smash(SENTINEL_ADDR));
    assert!(r.corrupted);
    assert_eq!(local, CallTarget::ForeignWord(SENTINEL_ADDR));
    assert_eq!(r.outcome, InvokeOutcome::Ran(CallableId::Sentinel));
    assert_eq!(r.final_val, 1);
}

#[test]
fn hardening_trace_carries_no_address() {
    let (r, _d, _local) = run_hardening_bypass(3, &UnconstrainedAction::Decline);
    assert_eq!(r.events[1], Event::Granted(Capability::Unconstrained));
}

#[test]
fn dynamic_declined_bounds_check_rejects_the_index() {
    let (r, d, cell) = run_dynamic_bounds_bypass(BASE, ELEMS, CELL, SENTINEL_ADDR, 1,
        &MetadataAction::Decline);
    assert_eq!(r.family, Family::DynamicBoundsBypass);
    assert!(!r.corrupted);
    assert!(r.events.contains(&Event::IndexComputed { index: 5 }));
    assert!(r.events.contains(&Event::WriteRejected { index: 5 }));
    assert_eq!(cell.content, CellContent::Target(CallTarget::Valid(CallableId::AddTwo)));
    assert_eq!(r.outcome, InvokeOutcome::Ran(CallableId::AddTwo));
    assert_eq!(r.final_val, 3);
    assert_eq!(d.vecs.elems, vec![4, 5]);
    assert_eq!(d.vecs.length, 2);
}

#[test]
fn dynamic_corrupted_metadata_lets_the_write_escape() {
    let action = MetadataAction::SetBookkeeping { length: 100, capacity: 100 };
    let (r, d, cell) = run_dynamic_bounds_bypass(BASE, ELEMS, CELL, SENTINEL_ADDR, 2, &action);
    assert!(r.corrupted);
    // The computed index lies past the true element count, yet the check
    // against the corrupted length accepts the write.
    assert!(r.events.contains(&Event::IndexComputed { index: 5 }));
    assert!(r.events.contains(&Event::WriteAccepted { index: 5 }));
    assert!(r.events.contains(&Event::PostRecord(RecordSnapshot {
        length: 100,
        capacity: 100,
        ..fresh_snapshot()
    })));
    assert!(5 >= d.vecs.elems.len());
    // The element storage was never touched; only the bookkeeping lies.
    assert_eq!(d.vecs.elems, vec![4, 5]);
    assert_eq!(d.vecs.length, 100);
    assert_eq!(d.vecs.capacity, 100);
    // The escaped write landed on the heap cell, and resuming ran its word.
    assert_eq!(cell.content, CellContent::Target(CallTarget::ForeignWord(SENTINEL_ADDR)));
    assert_eq!(r.outcome, InvokeOutcome::Ran(CallableId::Sentinel));
    assert_eq!(r.final_val, 1);
}

#[test]
fn dynamic_metadata_too_small_still_rejects() {
    let action = MetadataAction::SetBookkeeping { length: 5, capacity: 5 };
    let (r, _d, cell) = run_dynamic_bounds_bypass(BASE, ELEMS, CELL, SENTINEL_ADDR, 3, &action);
    // Index 5 is not below the claimed length 5: the check still refuses.
    assert!(r.events.contains(&Event::WriteRejected { index: 5 }));
    assert_eq!(cell.content, CellContent::Target(CallTarget::Valid(CallableId::AddTwo)));
    assert_eq!(r.outcome, InvokeOutcome::Ran(CallableId::AddTwo));
}

#[test]
fn checked_write_dispositions() {
    let mut d = Data::fresh();
    assert_eq!(d.vecs.checked_write(0, 9), WriteOutcome::InBuffer);
    assert_eq!(d.vecs.elems, vec![9, 5]);
    assert_eq!(d.vecs.checked_write(2, 9), WriteOutcome::Rejected);
    assert_eq!(d.vecs.checked_write(-1, 9), WriteOutcome::Rejected);
    d.vecs.length = 10;
    assert_eq!(d.vecs.checked_write(3, 9), WriteOutcome::Escaped);
    assert_eq!(d.vecs.elems, vec![9, 5]);
}

#[test]
fn poisoning_intended_address_runs_add_one() {
    let (r, _d, target) = run_callback_poisoning(ADD_ONE_ADDR, 1);
    assert_eq!(r.family, Family::CallbackPoisoning);
    assert!(!r.corrupted);
    assert_eq!(target, CallTarget::ForeignWord(ADD_ONE_ADDR));
    assert_eq!(r.outcome, InvokeOutcome::Ran(CallableId::AddOne));
    assert_eq!(r.final_val, 2);
}

#[test]
fn poisoning_sentinel_address_is_invoked_verbatim() {
    let (r, _d, target) = run_callback_poisoning(SENTINEL_ADDR, 2);
    assert!(r.corrupted);
    assert_eq!(target, CallTarget::ForeignWord(SENTINEL_ADDR));
    assert_eq!(r.outcome, InvokeOutcome::Ran(CallableId::Sentinel));
    assert_eq!(r.final_val, 1);
    assert!(r.events.contains(&Event::Poisoned { raw: SENTINEL_ADDR }));
}

#[test]
fn poisoning_arbitrary_word_is_a_wild_jump() {
    let (r, _d, _target) = run_callback_poisoning(424242, 3);
    assert!(r.corrupted);
    assert_eq!(r.outcome, InvokeOutcome::WildJump(424242));
    assert_eq!(r.final_val, 1);
}

#[test]
fn declined_runs_twice_give_identical_traces() {
    let (r1, _) = run_bounds_bypass(BASE, 1, &BoundsAction::Decline);
    let (r2, _) = run_bounds_bypass(BASE, 1, &BoundsAction::Decline);
    assert_eq!(r1, r2);
    let (l1, _, _) = run_lifetime_bypass(CELL, 1, &AddressAction::Decline);
    let (l2, _, _) = run_lifetime_bypass(CELL, 1, &AddressAction::Decline);
    assert_eq!(l1, l2);
    let (h1, _, _) = run_hardening_bypass(1, &UnconstrainedAction::Decline);
    let (h2, _, _) = run_hardening_bypass(1, &UnconstrainedAction::Decline);
    assert_eq!(h1, h2);
    let (d1, _, _) = run_dynamic_bounds_bypass(BASE, ELEMS, CELL, 0, 1, &MetadataAction::Decline);
    let (d2, _, _) = run_dynamic_bounds_bypass(BASE, ELEMS, CELL, 7, 1, &MetadataAction::Decline);
    assert_eq!(d1, d2);
    let (p1, _, _) = run_callback_poisoning(ADD_ONE_ADDR, 1);
    let (p2, _, _) = run_callback_poisoning(ADD_ONE_ADDR, 1);
    assert_eq!(p1, p2);
}

#[test]
fn empty_block_is_a_declined_use() {
    let (r, d) = run_bounds_bypass(BASE, 6, &BoundsAction::WriteBlock(vec![]));
    assert!(!r.corrupted);
    assert_eq!(r.outcome, InvokeOutcome::Ran(CallableId::AddOne));
    assert_eq!(d.vals, vec![2, 2, 3]);
}

#[test]
fn fresh_record_matches_the_documented_baseline() {
    let d = Data::fresh();
    assert_eq!(d.vals, vec![1, 2, 3]);
    assert_eq!(d.cb, CallTarget::Valid(CallableId::AddOne));
    assert_eq!(d.vecs.elems, vec![4, 5]);
    assert_eq!(d.vecs.length, 2);
    assert_eq!(d.vecs.capacity, 2);
    assert_eq!(d.cb2, CallTarget::Valid(CallableId::AddTwo));
}

#[test]
fn slot_access_reads_and_writes_in_bounds() {
    let mut d = Data::fresh();
    assert_eq!(d.read_slot(2), 3);
    d.write_slot(1, 42);
    assert_eq!(d.read_slot(1), 42);
    assert_eq!(d.vals, vec![1, 42, 3]);
    assert_eq!(d.cb, CallTarget::Valid(CallableId::AddOne));
}

#[test]
fn every_trace_opens_with_creation_and_closes_with_observation() {
    let (r1, _) = run_bounds_bypass(BASE, 1, &BoundsAction::WriteBlock(vec![9, 9, 9, 9]));
    let (r2, _, _) = run_lifetime_bypass(CELL, 1, &AddressAction::Free);
    let (r3, _, _) = run_hardening_bypass(1, &UnconstrainedAction::Smash(0));
    let (r4, _, _) = run_dynamic_bounds_bypass(BASE, ELEMS, CELL, 0, 1,
        &MetadataAction::SetBookkeeping { length: 9, capacity: 9 });
    let (r5, _, _) = run_callback_poisoning(0, 1);
    for r in [r1, r2, r3, r4, r5] {
        assert_eq!(r.events[0], Event::Created(fresh_snapshot()));
        assert!(matches!(r.events.last(), Some(Event::Observed { .. })));
    }
}
