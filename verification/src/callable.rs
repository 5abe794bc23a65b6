//! The callables of the model, and invocation through a call target.
//!
//! The safe side knows a small set of pure callables, each living at a fixed,
//! well-known modeled code address.  A call target is either a reference the
//! safe side created itself (`Valid`) or a raw 64-bit word of foreign origin
//! (`ForeignWord`).  Invoking a foreign word resolves it against the modeled
//! code addresses with no provenance check: the word is trusted verbatim, so
//! the adversary fully decides what runs.  Arithmetic wraps at the 64-bit
//! boundary, since a corrupted slot may hold any bit pattern.

use vstd::prelude::*;

verus! {

/// Identity of a known callable.
///
/// `AddOne` and `AddTwo` are the two designated safe callables: the record's
/// primary and secondary call targets resolve to them, and the add-two
/// callable is also the one held behind the heap references and the local
/// variable of the lifetime, hardening and dynamic-bounds families.
/// `Sentinel` stands for adversary-chosen code: it leaves its argument
/// unchanged, and the fact that it ran (rather than the pre-attack callable)
/// is the observable symptom of a successful attack.
#[derive(Clone, Copy, PartialEq, Eq, Structural, Debug)]
pub enum CallableId {
    AddOne,
    AddTwo,
    Sentinel,
}

/// Modeled code address of the add-one callable.
pub const ADD_ONE_ADDR: i64 = 0x1000;

/// Modeled code address of the add-two callable.
pub const ADD_TWO_ADDR: i64 = 0x1008;

/// Modeled code address of the sentinel (adversary-chosen) callable.
pub const SENTINEL_ADDR: i64 = 0x1010;

/// The fixed code address at which a callable lives in the model.
pub open spec fn spec_code_address(id: CallableId) -> i64 {
    match id {
        CallableId::AddOne => ADD_ONE_ADDR,
        CallableId::AddTwo => ADD_TWO_ADDR,
        CallableId::Sentinel => SENTINEL_ADDR,
    }
}

/// Which callable, if any, lives at a modeled address.
pub open spec fn code_at(addr: i64) -> Option<CallableId> {
    if addr == ADD_ONE_ADDR {
        Some(CallableId::AddOne)
    } else if addr == ADD_TWO_ADDR {
        Some(CallableId::AddTwo)
    } else if addr == SENTINEL_ADDR {
        Some(CallableId::Sentinel)
    } else {
        None
    }
}

/// The code address of a known callable.
pub fn code_address(id: CallableId) -> (a: i64)
    ensures
        a == spec_code_address(id),
{
    match id {
        CallableId::AddOne => ADD_ONE_ADDR,
        CallableId::AddTwo => ADD_TWO_ADDR,
        CallableId::Sentinel => SENTINEL_ADDR,
    }
}

/// Resolve a modeled address to the callable living there, if any.
pub fn lookup_code(addr: i64) -> (r: Option<CallableId>)
    ensures
        r == code_at(addr),
{
    if addr == ADD_ONE_ADDR {
        Some(CallableId::AddOne)
    } else if addr == ADD_TWO_ADDR {
        Some(CallableId::AddTwo)
    } else if addr == SENTINEL_ADDR {
        Some(CallableId::Sentinel)
    } else {
        None
    }
}

/// What a callable does to the single integer it is handed.
pub open spec fn sem(id: CallableId, x: i64) -> i64 {
    match id {
        CallableId::AddOne => x.wrapping_add(1),
        CallableId::AddTwo => x.wrapping_add(2),
        CallableId::Sentinel => x,
    }
}

/// The add-one callable: adds one to its argument.
pub fn incrementer(x: &mut i64)
    ensures
        *final(x) == sem(CallableId::AddOne, *old(x)),
{
    *x = (*x).wrapping_add(1);
}

/// The add-two callable: adds two to its argument.
pub fn doubler(x: &mut i64)
    ensures
        *final(x) == sem(CallableId::AddTwo, *old(x)),
{
    *x = (*x).wrapping_add(2);
}

/// Run the callable with the given identity on a borrowed integer.
pub fn apply_callable(id: CallableId, x: &mut i64)
    ensures
        *final(x) == sem(id, *old(x)),
{
    match id {
        CallableId::AddOne => incrementer(x),
        CallableId::AddTwo => doubler(x),
        CallableId::Sentinel => {},
    }
}

/// A reference to callable code, as the safe side stores it.
///
/// `Valid` carries provenance: the safe side built it from a known callable.
/// `ForeignWord` is a raw word that reached the slot across the trust
/// boundary; constructing one is the explicit poisoning transition, and
/// invoking one trusts the word verbatim.
#[derive(Clone, Copy, PartialEq, Eq, Structural, Debug)]
pub enum CallTarget {
    Valid(CallableId),
    ForeignWord(i64),
}

/// The callable a target resolves to when invoked, if any.
pub open spec fn resolves(t: CallTarget) -> Option<CallableId> {
    match t {
        CallTarget::Valid(id) => Some(id),
        CallTarget::ForeignWord(w) => code_at(w),
    }
}

/// What invoking a call target is observed to do.
#[derive(Clone, Copy, PartialEq, Eq, Structural, Debug)]
pub enum InvokeOutcome {
    /// The callable with this identity ran.
    Ran(CallableId),
    /// Control jumped to a word that is no code address: a fatal fault.
    WildJump(i64),
    /// The invocation read a reference whose backing storage was freed.
    UseAfterFree,
}

/// The outcome of invoking a call target.
pub open spec fn invoke_outcome(t: CallTarget) -> InvokeOutcome {
    match resolves(t) {
        Some(id) => InvokeOutcome::Ran(id),
        None => match t {
            CallTarget::ForeignWord(w) => InvokeOutcome::WildJump(w),
            CallTarget::Valid(id) => InvokeOutcome::Ran(id),
        },
    }
}

/// The value left behind by invoking a call target on `x`.
///
/// A faulting invocation leaves the value as it was: the fault itself is the
/// observed symptom.
pub open spec fn invoke_value(t: CallTarget, x: i64) -> i64 {
    match resolves(t) {
        Some(id) => sem(id, x),
        None => x,
    }
}

/// Invoke a call target on a borrowed integer.
///
/// A `Valid` target runs its callable.  A `ForeignWord` target is resolved
/// against the modeled code addresses with no provenance check; a word that
/// is no code address is a wild jump, reported as the outcome.
pub fn invoke_target(t: &CallTarget, x: &mut i64) -> (o: InvokeOutcome)
    ensures
        o == invoke_outcome(*t),
        *final(x) == invoke_value(*t, *old(x)),
{
    match t {
        CallTarget::Valid(id) => {
            apply_callable(*id, x);
            InvokeOutcome::Ran(*id)
        },
        CallTarget::ForeignWord(w) => {
            match lookup_code(*w) {
                Some(id) => {
                    apply_callable(id, x);
                    InvokeOutcome::Ran(id)
                },
                None => InvokeOutcome::WildJump(*w),
            }
        },
    }
}

} // verus!
