use vstd::prelude::*;

verus! {

/// Address of one memory cell: a segment and an offset within that segment.
///
/// A negative `segment_index` marks a temporary address, one that belongs to
/// a segment not yet relocated into the real address space; a non-negative
/// index marks a real address.
#[derive(Clone, Copy, Debug, PartialEq, Eq, Structural)]
pub struct Relocatable {
    pub segment_index: isize,
    pub offset: usize,
}

impl Relocatable {
    /// True when the address points into a not-yet-relocated segment.
    pub fn is_temporary(&self) -> (r: bool)
        ensures
            r == (self.segment_index < 0),
    {
        self.segment_index < 0
    }
}

/// Content of a written memory cell: an address, or an opaque scalar word
/// (a field element). The verifier only ever inspects the address variant.
#[derive(Clone, Copy, Debug, PartialEq, Eq, Structural)]
pub enum MaybeRelocatable {
    RelocatableValue(Relocatable),
    Int(u64),
}

} // verus!
