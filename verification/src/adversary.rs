//! Capability descriptors and the actions each capability admits.
//!
//! The foreign adversary is an external collaborator: the model never looks
//! inside it, it only grants it a capability and receives back one action of
//! the matching type.  Each action type is the whole of what the capability's
//! tag allows, so the boundary each family grants is enforced by the model
//! itself: a metadata capability cannot express an element write, an
//! unconstrained capability carries no address at all, and every capability
//! admits a declined, no-op use.

use vstd::prelude::*;

verus! {

/// What one adversary invocation was granted: the family's tag and the
/// single address it was given, if any.
#[derive(Clone, Copy, PartialEq, Eq, Structural, Debug)]
pub enum Capability {
    /// May write words without an upper bound, starting at this base.
    FixedBufferWrite { base: i64 },
    /// May overwrite, free or redirect the storage at this address.
    AddressWrite { addr: i64 },
    /// Given no address; may corrupt co-resident control data regardless.
    Unconstrained,
    /// May overwrite only the bookkeeping header at this address.
    MetadataWrite { addr: i64 },
    /// Asked to return an address the safe side will trust as callable.
    SupplyCallback,
}

/// Use of a fixed-buffer write capability: a contiguous block of words
/// written from the exposed base, with no upper bound on its extent.
pub enum BoundsAction {
    Decline,
    WriteBlock(Vec<i64>),
}

/// The words a fixed-buffer action writes from the base, in order.
pub open spec fn block_of(a: BoundsAction) -> Seq<i64> {
    match a {
        BoundsAction::Decline => Seq::empty(),
        BoundsAction::WriteBlock(w) => w@,
    }
}

/// Use of an address capability against a single storage location.
#[derive(Clone, Copy, PartialEq, Eq, Structural, Debug)]
pub enum AddressAction {
    Decline,
    /// Overwrite the storage with this raw word.
    Overwrite(i64),
    /// Free the storage while references to it live on.
    Free,
}

/// Use of the unconstrained capability: with no address handed over, the
/// adversary may still reach the stack slot backing a local call target.
#[derive(Clone, Copy, PartialEq, Eq, Structural, Debug)]
pub enum UnconstrainedAction {
    Decline,
    /// The write reached the local call target's slot: it now holds this word.
    Smash(i64),
}

/// Use of a metadata capability: only the claimed length and capacity may
/// change; the element storage is never touched.
#[derive(Clone, Copy, PartialEq, Eq, Structural, Debug)]
pub enum MetadataAction {
    Decline,
    SetBookkeeping { length: i64, capacity: i64 },
}

} // verus!
