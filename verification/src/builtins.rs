use crate::memory::Memory;
use crate::relocatable::MaybeRelocatable;
use vstd::prelude::*;

verus! {

/// Declared extent of one builtin's segment: the real segment it owns and the
/// exclusive offset bound (`stop_ptr`) that the builtin itself vouches for.
#[derive(Clone, Copy, Debug, PartialEq, Eq, Structural)]
pub struct BuiltinBound {
    pub segment_index: usize,
    pub stop_ptr: usize,
}

/// Failure of a builtin's own audit of its segment contents.
#[derive(Clone, Copy, Debug, PartialEq, Eq, Structural)]
pub enum BuiltinSecurityError {
    /// The cell at `offset` holds an address where a scalar was required.
    NonIntegerValue { offset: usize },
    /// The scalar at `offset` is not below the builtin's admissible bound.
    ValueOutOfRange { offset: usize, value: u64 },
}

/// Capability contract every registered builtin exposes to the verifier:
/// report the bound of its own segment, and audit that segment's contents.
/// Each builtin is solely responsible for auditing its own data.
pub trait BuiltinCapability {
    /// The bound the builtin reports.
    spec fn bound_spec(&self) -> BuiltinBound;

    /// Verdict of the builtin's self-audit on the given memory.
    spec fn audit_spec(&self, memory: Memory) -> Result<(), BuiltinSecurityError>;

    fn bound(&self) -> (r: BuiltinBound)
        ensures
            r == self.bound_spec(),
    ;

    fn run_security_checks(&self, memory: &Memory) -> (r: Result<(), BuiltinSecurityError>)
        ensures
            r == self.audit_spec(*memory),
    ;
}

/// Audit verdict for one cell of a range-check segment: holes pass, scalars
/// pass when strictly below `bound`, addresses always fail.
pub open spec fn range_check_cell(
    cell: Option<MaybeRelocatable>,
    offset: usize,
    bound: u64,
) -> Option<BuiltinSecurityError> {
    match cell {
        None => None,
        Some(MaybeRelocatable::Int(value)) => if value < bound {
            None
        } else {
            Some(BuiltinSecurityError::ValueOutOfRange { offset: offset, value: value })
        },
        Some(MaybeRelocatable::RelocatableValue(_)) => Some(
            BuiltinSecurityError::NonIntegerValue { offset: offset },
        ),
    }
}

/// Verdict of the range-check audit over `seg` from offset `o` on: the error
/// of the first offending cell, in ascending offset order.
pub open spec fn range_check_from(
    seg: Seq<Option<MaybeRelocatable>>,
    o: int,
    bound: u64,
) -> Result<(), BuiltinSecurityError>
    decreases seg.len() - o,
{
    if o < 0 || o >= seg.len() {
        Ok(())
    } else {
        match range_check_cell(seg[o], o as usize, bound) {
            Some(e) => Err(e),
            None => range_check_from(seg, o + 1, bound),
        }
    }
}

/// Full audit of a range-check builtin: vacuously clean when its segment was
/// never created, otherwise the verdict of the scan from offset zero.
pub open spec fn range_check_audit(
    memory: Memory,
    base: usize,
    bound: u64,
) -> Result<(), BuiltinSecurityError> {
    if base < memory.data@.len() {
        range_check_from(memory.data@[base as int]@, 0, bound)
    } else {
        Ok(())
    }
}

/// A registered builtin component, one variant per builtin kind.
#[derive(Clone, Copy, Debug)]
pub enum BuiltinRunner {
    /// Output builtin: its cells are unconstrained, so its audit always passes.
    Output { base: usize, stop_ptr: usize },
    /// Range-check builtin: every written cell of its segment must hold a
    /// scalar strictly below `bound`.
    RangeCheck { base: usize, stop_ptr: usize, bound: u64 },
}

impl BuiltinCapability for BuiltinRunner {
    open spec fn bound_spec(&self) -> BuiltinBound {
        match *self {
            BuiltinRunner::Output { base, stop_ptr } => BuiltinBound {
                segment_index: base,
                stop_ptr: stop_ptr,
            },
            BuiltinRunner::RangeCheck { base, stop_ptr, .. } => BuiltinBound {
                segment_index: base,
                stop_ptr: stop_ptr,
            },
        }
    }

    open spec fn audit_spec(&self, memory: Memory) -> Result<(), BuiltinSecurityError> {
        match *self {
            BuiltinRunner::Output { .. } => Ok(()),
            BuiltinRunner::RangeCheck { base, bound, .. } => range_check_audit(memory, base, bound),
        }
    }

    fn bound(&self) -> (r: BuiltinBound) {
        match *self {
            BuiltinRunner::Output { base, stop_ptr } => BuiltinBound {
                segment_index: base,
                stop_ptr: stop_ptr,
            },
            BuiltinRunner::RangeCheck { base, stop_ptr, .. } => BuiltinBound {
                segment_index: base,
                stop_ptr: stop_ptr,
            },
        }
    }

    #[verifier::loop_isolation(false)]
    fn run_security_checks(&self, memory: &Memory) -> (r: Result<(), BuiltinSecurityError>) {
        match *self {
            BuiltinRunner::Output { .. } => Ok(()),
            BuiltinRunner::RangeCheck { base, bound, .. } => {
                if base >= memory.data.len() {
                    return Ok(());
                }
                let seg = &memory.data[base];
                let cell_count = seg.len();
                for o in 0..cell_count
                    invariant
                        range_check_from(seg@, 0, bound) == range_check_from(seg@, o as int, bound),
                {
                    match seg[o] {
                        None => {},
                        Some(MaybeRelocatable::Int(value)) => {
                            if value >= bound {
                                return Err(
                                    BuiltinSecurityError::ValueOutOfRange {
                                        offset: o,
                                        value: value,
                                    },
                                );
                            }
                        },
                        Some(MaybeRelocatable::RelocatableValue(_)) => {
                            return Err(BuiltinSecurityError::NonIntegerValue { offset: o });
                        },
                    }
                }
                Ok(())
            },
        }
    }
}

} // verus!
