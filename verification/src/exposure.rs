//! Boundary exposure: raw addresses handed to the foreign side.
//!
//! The record's parts are address-computable from its base: slot `i` of the
//! fixed buffer lives at `base + 8 * i` bytes, and the remaining fields
//! follow at fixed byte offsets.  Each function here computes exactly the
//! requested integer and nothing richer — no bounds, no type, no layout
//! metadata — and performs no validation of what the receiver will do with
//! it.  Handing out that bare integer is the single abstraction point every
//! attack family exploits.

use vstd::prelude::*;
use crate::record::HeapCell;

verus! {

/// Bytes per record word: every slot and field is one 64-bit word.
pub const SLOT_BYTES: i64 = 8;

/// Byte offset of the primary call target from the record's base.
pub const CB_OFFSET: i64 = 24;

/// Byte offset of the growable sequence's bookkeeping from the base.
pub const VECS_OFFSET: i64 = 32;

/// Byte offset of the secondary call target from the base.
pub const CB2_OFFSET: i64 = 48;

/// Word offset of the primary call target from the fixed-slot base: the
/// first word past the last fixed slot.
pub const CB_WORD: usize = 3;

/// Word offset of the claimed length.
pub const LEN_WORD: usize = 4;

/// Word offset of the claimed capacity.
pub const CAP_WORD: usize = 5;

/// Word offset of the secondary call target.
pub const CB2_WORD: usize = 6;

/// A usable record base: word-aligned, non-negative, with every field's
/// address still representable.
pub open spec fn base_ok(base: i64) -> bool {
    &&& 0 <= base
    &&& base % 8 == 0
    &&& base + CB2_OFFSET <= i64::MAX
}

/// Address of the fixed-slot buffer: the record's base itself.
pub fn vals_addr(base: i64) -> (a: i64)
    requires
        base_ok(base),
    ensures
        a == base,
{
    base
}

/// Address of the primary call target's storage.
pub fn cb_addr(base: i64) -> (a: i64)
    requires
        base_ok(base),
    ensures
        a == base + CB_OFFSET,
{
    base + CB_OFFSET
}

/// Address of the growable sequence's bookkeeping (claimed length and
/// capacity) — not of its element storage.
pub fn vecs_addr(base: i64) -> (a: i64)
    requires
        base_ok(base),
    ensures
        a == base + VECS_OFFSET,
{
    base + VECS_OFFSET
}

/// Address of the secondary call target's storage.
pub fn cb2_addr(base: i64) -> (a: i64)
    requires
        base_ok(base),
    ensures
        a == base + CB2_OFFSET,
{
    base + CB2_OFFSET
}

/// Address of a heap cell's storage.
pub fn cell_addr(c: &HeapCell) -> (a: i64)
    ensures
        a == c.addr,
{
    c.addr
}

} // verus!
