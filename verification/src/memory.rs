use crate::relocatable::MaybeRelocatable;
use vstd::prelude::*;

verus! {

/// Segmented memory store of a completed run, frozen before verification.
///
/// `data` holds the real segments, indexed by non-negative segment index;
/// `temp_data` holds the temporary segments, in order of allocation. A `None`
/// slot is a hole: that cell was never written. A segment's effective size is
/// the slot count up to and including the highest written offset, which for a
/// frozen run is the length of its slot vector.
pub struct Memory {
    pub data: Vec<Vec<Option<MaybeRelocatable>>>,
    pub temp_data: Vec<Vec<Option<MaybeRelocatable>>>,
}

impl Memory {
    /// The real segments, as a sequence of cell sequences.
    pub open spec fn real_segments(&self) -> Seq<Seq<Option<MaybeRelocatable>>> {
        self.data@.map_values(|seg: Vec<Option<MaybeRelocatable>>| seg@)
    }

    /// Effective size of real segment `idx`; absent when the segment was
    /// never created. An absent size never counts as exceeding a bound.
    pub open spec fn size_at(&self, idx: int) -> Option<int> {
        if 0 <= idx < self.data@.len() {
            Some(self.data@[idx]@.len() as int)
        } else {
            None
        }
    }

    /// Whether the run ever allocated a temporary segment, written or not.
    pub open spec fn has_temp_segments(&self) -> bool {
        self.temp_data@.len() > 0
    }

    pub fn new() -> (r: Memory)
        ensures
            r.data@.len() == 0,
            r.temp_data@.len() == 0,
    {
        Memory { data: Vec::new(), temp_data: Vec::new() }
    }

    /// Effective size of a real segment, or `None` if it was never created.
    pub fn effective_size(&self, segment_index: usize) -> (r: Option<usize>)
        ensures
            match r {
                Some(n) => self.size_at(segment_index as int) == Some(n as int),
                None => self.size_at(segment_index as int) is None,
            },
    {
        if segment_index < self.data.len() {
            Some(self.data[segment_index].len())
        } else {
            None
        }
    }

    /// True iff the temporary family contains at least one segment.
    pub fn has_any_temporary_segment(&self) -> (r: bool)
        ensures
            r == self.has_temp_segments(),
    {
        self.temp_data.len() > 0
    }
}

} // verus!
