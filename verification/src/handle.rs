//! Generation-checked handles.
//!
//! A raw handle packs a registry slot index and the slot's generation into
//! one `u64`. A handle only dereferences while the slot still carries the
//! same generation, which turns use-after-removal into a checkable
//! "device lost" condition instead of a dangling reference.

use vstd::prelude::*;

verus! {

/// Value of one more than `u32::MAX`: the weight of the generation half of a
/// raw handle.
pub const GENERATION_BASE: u64 = 0x1_0000_0000;

/// A registry slot index paired with the generation it was issued for.
#[derive(Clone, Copy, Debug, PartialEq, Eq, Structural)]
pub struct Handle {
    pub index: u32,
    pub generation: u32,
}

impl Handle {
    /// The packed `u64` form of the handle.
    pub open spec fn raw_spec(self) -> u64 {
        (self.index as u64 + self.generation as u64 * GENERATION_BASE) as u64
    }

    /// The handle a packed `u64` decodes to.
    pub open spec fn from_raw_spec(raw: u64) -> Handle {
        Handle {
            index: (raw as int % GENERATION_BASE as int) as u32,
            generation: (raw as int / GENERATION_BASE as int) as u32,
        }
    }

    pub fn new(index: u32, generation: u32) -> (h: Handle)
        ensures
            h == (Handle { index, generation }),
    {
        Handle { index, generation }
    }

    /// Pack the handle into its raw `u64` form.
    pub fn raw(self) -> (r: u64)
        ensures
            r == self.raw_spec(),
    {
        proof {
            assert(self.index as u64 + self.generation as u64 * GENERATION_BASE <= u64::MAX)
                by (nonlinear_arith)
                requires
                    self.index <= u32::MAX,
                    self.generation <= u32::MAX,
            ;
        }
        self.index as u64 + self.generation as u64 * GENERATION_BASE
    }

    /// Unpack a raw `u64` into a handle.
    pub fn from_raw(raw: u64) -> (h: Handle)
        ensures
            h == Handle::from_raw_spec(raw),
    {
        Handle { index: (raw % GENERATION_BASE) as u32, generation: (raw / GENERATION_BASE) as u32 }
    }
}

/// Packing then unpacking a handle yields the handle back: raw handles are
/// faithful to the (index, generation) pair they were issued for.
pub proof fn lemma_handle_raw_roundtrip(h: Handle)
    ensures
        Handle::from_raw_spec(h.raw_spec()) == h,
{
    let raw = h.index as int + h.generation as int * GENERATION_BASE as int;
    assert(raw % GENERATION_BASE as int == h.index as int && raw / GENERATION_BASE as int
        == h.generation as int) by (nonlinear_arith)
        requires
            raw == h.index as int + h.generation as int * GENERATION_BASE as int,
            0 <= h.index <= u32::MAX,
            0 <= h.generation <= u32::MAX,
            GENERATION_BASE == 0x1_0000_0000,
    ;
}

/// Distinct handles pack to distinct raw values.
pub proof fn lemma_handle_raw_injective(a: Handle, b: Handle)
    requires
        a.raw_spec() == b.raw_spec(),
    ensures
        a == b,
{
    lemma_handle_raw_roundtrip(a);
    lemma_handle_raw_roundtrip(b);
}

} // verus!
