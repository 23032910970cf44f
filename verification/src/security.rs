use crate::builtins::{BuiltinBound, BuiltinCapability, BuiltinRunner, BuiltinSecurityError};
use crate::memory::Memory;
use crate::relocatable::{MaybeRelocatable, Relocatable};
use vstd::prelude::*;

verus! {

/// Program layout the verifier checks against: the address at which the
/// program was loaded (unset until the run has been initialized) and the
/// number of words loaded.
pub struct RunConfig {
    pub program_base: Option<Relocatable>,
    pub program_length: usize,
}

/// Completed virtual-machine state handed to the verifier: the frozen memory
/// store and the registered builtins, as `(name, builtin)` pairs in
/// registration order.
pub struct VirtualMachine {
    pub memory: Memory,
    pub builtin_runners: Vec<(String, BuiltinRunner)>,
}

/// Terminal verdicts of the verification pass.
#[derive(Clone, Copy, Debug, PartialEq, Eq, Structural)]
pub enum VerificationError {
    /// The program base was never configured; verification cannot proceed.
    MissingProgramBase,
    /// Some builtin's recorded segment size exceeds its declared stop pointer.
    OutOfBoundsBuiltinSegmentAccess,
    /// The program segment's recorded size exceeds the loaded program length.
    OutOfBoundsProgramSegmentAccess,
    /// A real-memory cell still holds an un-relocated temporary address.
    InvalidMemoryValueTemporaryAddress(Relocatable),
    /// A builtin failed its own audit; the inner error is opaque to the
    /// verifier beyond identifying the failure.
    BuiltinSecurityFailure(BuiltinSecurityError),
}

/// One builtin bound check: an absent size never fails; a present size must
/// not exceed the stop pointer.
pub open spec fn bound_check_ok(memory: Memory, b: BuiltinBound) -> bool {
    match memory.size_at(b.segment_index as int) {
        None => true,
        Some(size) => size <= b.stop_ptr as int,
    }
}

/// All registered builtins pass the bound check.
pub open spec fn builtin_bounds_ok(vm: VirtualMachine) -> bool {
    forall|i: int|
        0 <= i < vm.builtin_runners@.len() ==> bound_check_ok(
            vm.memory,
            #[trigger] vm.builtin_runners@[i].1.bound_spec(),
        )
}

/// The program base is configured and names a real (non-negative) segment.
pub open spec fn program_base_resolved(runner: RunConfig) -> bool {
    match runner.program_base {
        Some(base) => base.segment_index >= 0,
        None => false,
    }
}

/// The program segment's recorded size, when present, does not exceed the
/// loaded program length.
pub open spec fn program_bound_ok(runner: RunConfig, memory: Memory) -> bool {
    match runner.program_base {
        Some(base) => match memory.size_at(base.segment_index as int) {
            None => true,
            Some(size) => size <= runner.program_length as int,
        },
        None => true,
    }
}

/// The temporary address held by a cell, if any.
pub open spec fn cell_temporary_address(cell: Option<MaybeRelocatable>) -> Option<Relocatable> {
    match cell {
        Some(MaybeRelocatable::RelocatableValue(addr)) => if addr.segment_index < 0 {
            Some(addr)
        } else {
            None
        },
        _ => None,
    }
}

/// First temporary address held in `seg` at or after offset `o`.
pub open spec fn segment_first_temporary(
    seg: Seq<Option<MaybeRelocatable>>,
    o: int,
) -> Option<Relocatable>
    decreases seg.len() - o,
{
    if o < 0 || o >= seg.len() {
        None
    } else {
        match cell_temporary_address(seg[o]) {
            Some(addr) => Some(addr),
            None => segment_first_temporary(seg, o + 1),
        }
    }
}

/// First temporary address in the real segments from segment `s` on, in
/// ascending segment then ascending offset order.
pub open spec fn first_temporary_from(
    segs: Seq<Seq<Option<MaybeRelocatable>>>,
    s: int,
) -> Option<Relocatable>
    decreases segs.len() - s,
{
    if s < 0 || s >= segs.len() {
        None
    } else {
        match segment_first_temporary(segs[s], 0) {
            Some(addr) => Some(addr),
            None => first_temporary_from(segs, s + 1),
        }
    }
}

/// First temporary address anywhere in the real segments, in scan order.
pub open spec fn first_temporary_address(
    segs: Seq<Seq<Option<MaybeRelocatable>>>,
) -> Option<Relocatable> {
    first_temporary_from(segs, 0)
}

/// Error of the first builtin at or after position `i` whose self-audit
/// fails, in registration order.
pub open spec fn first_audit_error_from(
    builtins: Seq<(String, BuiltinRunner)>,
    memory: Memory,
    i: int,
) -> Option<BuiltinSecurityError>
    decreases builtins.len() - i,
{
    if i < 0 || i >= builtins.len() {
        None
    } else {
        match builtins[i].1.audit_spec(memory) {
            Err(e) => Some(e),
            Ok(_) => first_audit_error_from(builtins, memory, i + 1),
        }
    }
}

/// The exact verdict of the verification pass, in its fail-fast step order:
/// builtin bounds (only when `verify_builtins` is set), then program base and
/// bound, then temporary-address leakage (only when a temporary segment was
/// ever allocated), then the per-builtin self-audits.
pub open spec fn verify_spec(
    runner: RunConfig,
    verify_builtins: bool,
    vm: VirtualMachine,
) -> Result<(), VerificationError> {
    if verify_builtins && !builtin_bounds_ok(vm) {
        Err(VerificationError::OutOfBoundsBuiltinSegmentAccess)
    } else if !program_base_resolved(runner) {
        Err(VerificationError::MissingProgramBase)
    } else if !program_bound_ok(runner, vm.memory) {
        Err(VerificationError::OutOfBoundsProgramSegmentAccess)
    } else {
        match (if vm.memory.has_temp_segments() {
            first_temporary_address(vm.memory.real_segments())
        } else {
            None
        }) {
            Some(addr) => Err(VerificationError::InvalidMemoryValueTemporaryAddress(addr)),
            None => match first_audit_error_from(vm.builtin_runners@, vm.memory, 0) {
                Some(e) => Err(VerificationError::BuiltinSecurityFailure(e)),
                None => Ok(()),
            },
        }
    }
}

/// There is a temporary address written at real segment `s`, offset `o`.
pub open spec fn temporary_at(segs: Seq<Seq<Option<MaybeRelocatable>>>, s: int, o: int) -> bool {
    0 <= s < segs.len() && 0 <= o < segs[s].len() && cell_temporary_address(segs[s][o]) is Some
}

/// `(s2, o2)` comes before `(s, o)` in ascending (segment, offset) order.
pub open spec fn lex_before(s2: int, o2: int, s: int, o: int) -> bool {
    s2 < s || (s2 == s && o2 < o)
}

proof fn lemma_segment_no_temporary_from(seg: Seq<Option<MaybeRelocatable>>, o: int)
    requires
        0 <= o <= seg.len(),
        forall|o2: int|
            0 <= o2 < seg.len() ==> #[trigger] cell_temporary_address(seg[o2]) is None,
    ensures
        segment_first_temporary(seg, o) is None,
    decreases seg.len() - o,
{
    if o < seg.len() {
        lemma_segment_no_temporary_from(seg, o + 1);
    }
}

proof fn lemma_no_temporary_from(segs: Seq<Seq<Option<MaybeRelocatable>>>, s: int)
    requires
        0 <= s <= segs.len(),
        forall|s2: int, o2: int| !#[trigger] temporary_at(segs, s2, o2),
    ensures
        first_temporary_from(segs, s) is None,
    decreases segs.len() - s,
{
    if s < segs.len() {
        assert forall|o2: int|
            0 <= o2 < segs[s].len() implies #[trigger] cell_temporary_address(
            segs[s][o2],
        ) is None by {
            assert(!temporary_at(segs, s, o2));
        }
        lemma_segment_no_temporary_from(segs[s], 0);
        lemma_no_temporary_from(segs, s + 1);
    }
}

/// Law: when no real-memory cell holds a temporary address, the scan over
/// real memory comes back clean.
pub proof fn lemma_first_temporary_none(segs: Seq<Seq<Option<MaybeRelocatable>>>)
    requires
        forall|s2: int, o2: int| !#[trigger] temporary_at(segs, s2, o2),
    ensures
        first_temporary_address(segs) is None,
{
    lemma_no_temporary_from(segs, 0);
}

proof fn lemma_segment_first_temporary_at(
    seg: Seq<Option<MaybeRelocatable>>,
    o0: int,
    o: int,
    addr: Relocatable,
)
    requires
        0 <= o0 <= o < seg.len(),
        cell_temporary_address(seg[o]) == Some(addr),
        forall|o2: int| 0 <= o2 < o ==> #[trigger] cell_temporary_address(seg[o2]) is None,
    ensures
        segment_first_temporary(seg, o0) == Some(addr),
    decreases o - o0,
{
    if o0 < o {
        lemma_segment_first_temporary_at(seg, o0 + 1, o, addr);
    }
}

proof fn lemma_first_temporary_at(
    segs: Seq<Seq<Option<MaybeRelocatable>>>,
    s0: int,
    s: int,
    o: int,
    addr: Relocatable,
)
    requires
        0 <= s0 <= s < segs.len(),
        0 <= o < segs[s].len(),
        cell_temporary_address(segs[s][o]) == Some(addr),
        forall|s2: int, o2: int|
            lex_before(s2, o2, s, o) ==> !#[trigger] temporary_at(segs, s2, o2),
    ensures
        first_temporary_from(segs, s0) == Some(addr),
    decreases s - s0,
{
    if s0 == s {
        assert forall|o2: int|
            0 <= o2 < o implies #[trigger] cell_temporary_address(segs[s][o2]) is None by {
            assert(lex_before(s, o2, s, o));
            assert(!temporary_at(segs, s, o2));
        }
        lemma_segment_first_temporary_at(segs[s], 0, o, addr);
    } else {
        assert forall|o2: int|
            0 <= o2 < segs[s0].len() implies #[trigger] cell_temporary_address(
            segs[s0][o2],
        ) is None by {
            assert(lex_before(s0, o2, s, o));
            assert(!temporary_at(segs, s0, o2));
        }
        lemma_segment_no_temporary_from(segs[s0], 0);
        lemma_first_temporary_at(segs, s0 + 1, s, o, addr);
    }
}

/// Law: the scan over real memory reports exactly the temporary address that
/// comes first in ascending (segment, offset) order.
pub proof fn lemma_first_temporary_is_first(
    segs: Seq<Seq<Option<MaybeRelocatable>>>,
    s: int,
    o: int,
    addr: Relocatable,
)
    requires
        0 <= s < segs.len(),
        0 <= o < segs[s].len(),
        segs[s][o] == Some(MaybeRelocatable::RelocatableValue(addr)),
        addr.segment_index < 0,
        forall|s2: int, o2: int|
            lex_before(s2, o2, s, o) ==> !#[trigger] temporary_at(segs, s2, o2),
    ensures
        first_temporary_address(segs) == Some(addr),
{
    lemma_first_temporary_at(segs, 0, s, o, addr);
}

proof fn lemma_no_audit_error_from(
    builtins: Seq<(String, BuiltinRunner)>,
    memory: Memory,
    i: int,
)
    requires
        0 <= i <= builtins.len(),
        forall|j: int|
            0 <= j < builtins.len() ==> (#[trigger] builtins[j].1.audit_spec(memory)) is Ok,
    ensures
        first_audit_error_from(builtins, memory, i) is None,
    decreases builtins.len() - i,
{
    if i < builtins.len() {
        lemma_no_audit_error_from(builtins, memory, i + 1);
    }
}

/// Law: with the program base unset, verification fails with
/// `MissingProgramBase`, whatever the memory holds and whether or not the
/// builtin bound check is enabled — provided the bound check, which runs
/// first, does not itself fail.
pub proof fn lemma_unset_program_base_fails(
    runner: RunConfig,
    verify_builtins: bool,
    vm: VirtualMachine,
)
    requires
        runner.program_base is None,
        verify_builtins ==> builtin_bounds_ok(vm),
    ensures
        verify_spec(runner, verify_builtins, vm) == Err::<(), VerificationError>(
            VerificationError::MissingProgramBase,
        ),
{
}

/// Law: a clean run verifies. When every builtin's recorded segment size is
/// within its stop pointer, the program base is set and its segment's
/// recorded size is within the program length, either no temporary segment
/// exists or no real cell holds a temporary address, and every builtin's
/// self-audit succeeds, verification returns success.
pub proof fn lemma_clean_run_verifies(
    runner: RunConfig,
    verify_builtins: bool,
    vm: VirtualMachine,
)
    requires
        builtin_bounds_ok(vm),
        program_base_resolved(runner),
        program_bound_ok(runner, vm.memory),
        !vm.memory.has_temp_segments() || forall|s2: int, o2: int|
            !#[trigger] temporary_at(vm.memory.real_segments(), s2, o2),
        forall|j: int|
            0 <= j < vm.builtin_runners@.len() ==> (#[trigger] vm.builtin_runners@[j].1.audit_spec(
                vm.memory,
            )) is Ok,
    ensures
        verify_spec(runner, verify_builtins, vm) == Ok::<(), VerificationError>(()),
{
    if vm.memory.has_temp_segments() {
        lemma_first_temporary_none(vm.memory.real_segments());
    }
    lemma_no_audit_error_from(vm.builtin_runners@, vm.memory, 0);
}

/// Law: one builtin whose recorded segment size exceeds its stop pointer is
/// enough to fail verification with `OutOfBoundsBuiltinSegmentAccess` when
/// the bound check is enabled, whatever the other builtins report.
pub proof fn lemma_builtin_bound_violation_fails(runner: RunConfig, vm: VirtualMachine, i: int)
    requires
        0 <= i < vm.builtin_runners@.len(),
        vm.memory.size_at(
            vm.builtin_runners@[i].1.bound_spec().segment_index as int,
        ) matches Some(size) && size > vm.builtin_runners@[i].1.bound_spec().stop_ptr,
    ensures
        verify_spec(runner, true, vm) == Err::<(), VerificationError>(
            VerificationError::OutOfBoundsBuiltinSegmentAccess,
        ),
{
    assert(!bound_check_ok(vm.memory, vm.builtin_runners@[i].1.bound_spec()));
}

/// Law: when the bound step passes (or is disabled) and the program
/// segment's recorded size exceeds the program length, verification fails
/// with `OutOfBoundsProgramSegmentAccess`.
pub proof fn lemma_program_bound_violation_fails(
    runner: RunConfig,
    verify_builtins: bool,
    vm: VirtualMachine,
    base: Relocatable,
)
    requires
        verify_builtins ==> builtin_bounds_ok(vm),
        runner.program_base == Some(base),
        base.segment_index >= 0,
        vm.memory.size_at(base.segment_index as int) matches Some(size) && size
            > runner.program_length,
    ensures
        verify_spec(runner, verify_builtins, vm) == Err::<(), VerificationError>(
            VerificationError::OutOfBoundsProgramSegmentAccess,
        ),
{
}

/// Law (documented blind spot): when no temporary segment was ever
/// allocated, the leakage scan is skipped, so a temporary address written
/// into real memory goes undetected and verification still succeeds,
/// provided every other step passes.
pub proof fn lemma_temporary_blind_spot(
    runner: RunConfig,
    verify_builtins: bool,
    vm: VirtualMachine,
)
    requires
        verify_builtins ==> builtin_bounds_ok(vm),
        program_base_resolved(runner),
        program_bound_ok(runner, vm.memory),
        !vm.memory.has_temp_segments(),
        exists|s2: int, o2: int| #[trigger] temporary_at(vm.memory.real_segments(), s2, o2),
        forall|j: int|
            0 <= j < vm.builtin_runners@.len() ==> (#[trigger] vm.builtin_runners@[j].1.audit_spec(
                vm.memory,
            )) is Ok,
    ensures
        verify_spec(runner, verify_builtins, vm) == Ok::<(), VerificationError>(()),
{
    lemma_no_audit_error_from(vm.builtin_runners@, vm.memory, 0);
}

/// Law: when at least one temporary segment exists and a real-memory cell
/// holds a temporary address, verification fails with
/// `InvalidMemoryValueTemporaryAddress` carrying exactly the offending
/// address that comes first in ascending (segment, offset) order — provided
/// the earlier bound steps pass.
pub proof fn lemma_temporary_leak_detected(
    runner: RunConfig,
    verify_builtins: bool,
    vm: VirtualMachine,
    s: int,
    o: int,
    addr: Relocatable,
)
    requires
        verify_builtins ==> builtin_bounds_ok(vm),
        program_base_resolved(runner),
        program_bound_ok(runner, vm.memory),
        vm.memory.has_temp_segments(),
        0 <= s < vm.memory.real_segments().len(),
        0 <= o < vm.memory.real_segments()[s].len(),
        vm.memory.real_segments()[s][o] == Some(MaybeRelocatable::RelocatableValue(addr)),
        addr.segment_index < 0,
        forall|s2: int, o2: int|
            lex_before(s2, o2, s, o) ==> !#[trigger] temporary_at(
                vm.memory.real_segments(),
                s2,
                o2,
            ),
    ensures
        verify_spec(runner, verify_builtins, vm) == Err::<(), VerificationError>(
            VerificationError::InvalidMemoryValueTemporaryAddress(addr),
        ),
{
    lemma_first_temporary_is_first(vm.memory.real_segments(), s, o, addr);
}

/// Relies on `num_traits::ToPrimitive::to_usize` for `isize`: it returns
/// `Some(i as usize)` exactly when `i` is non-negative, and `None` otherwise.
#[verifier::external_body]
fn segment_index_to_usize(i: isize) -> (r: Option<usize>)
    ensures
        r == (if i >= 0 {
            Some(i as usize)
        } else {
            None::<usize>
        }),
{
    num_traits::ToPrimitive::to_usize(&i)
}

/// Scan every written real-memory cell in ascending (segment, offset) order
/// and report the first temporary address found, if any.
#[verifier::loop_isolation(false)]
pub fn find_first_temporary_address(memory: &Memory) -> (r: Option<Relocatable>)
    ensures
        r == first_temporary_address(memory.real_segments()),
{
    let ghost segs = memory.real_segments();
    let segment_count = memory.data.len();
    for s in 0..segment_count
        invariant
            first_temporary_from(segs, 0) == first_temporary_from(segs, s as int),
    {
        let seg = &memory.data[s];
        let cell_count = seg.len();
        for o in 0..cell_count
            invariant
                segment_first_temporary(seg@, 0) == segment_first_temporary(seg@, o as int),
        {
            match seg[o] {
                Some(MaybeRelocatable::RelocatableValue(addr)) => {
                    if addr.is_temporary() {
                        return Some(addr);
                    }
                },
                _ => {},
            }
        }
    }
    None
}

/// Verify that a completed run is safe to be relocated and consumed by later
/// stages.
///
/// The checks run in this exact order, and the first failure aborts the pass:
///   - every access to a builtin segment lies within the bound the builtin
///     itself declared (skipped entirely unless `verify_builtins` is set);
///   - the program base is configured, and accesses to the program segment
///     stay within the loaded program data;
///   - when a temporary segment was ever allocated, no real-memory cell still
///     holds a temporary (negative-segment) address;
///   - every builtin passes its own audit of its segment's data.
///
/// The pass is read-only: it inspects `runner` and `vm` and mutates nothing.
#[verifier::loop_isolation(false)]
pub fn verify_secure_runner(
    runner: &RunConfig,
    verify_builtins: bool,
    vm: &VirtualMachine,
) -> (r: Result<(), VerificationError>)
    ensures
        r == verify_spec(*runner, verify_builtins, *vm),
{
    // Check builtin segments for out-of-bounds accesses.
    if verify_builtins {
        let builtin_count = vm.builtin_runners.len();
        for i in 0..builtin_count
            invariant
                forall|j: int|
                    0 <= j < i ==> bound_check_ok(
                        vm.memory,
                        #[trigger] vm.builtin_runners@[j].1.bound_spec(),
                    ),
        {
            let b = vm.builtin_runners[i].1.bound();
            match vm.memory.effective_size(b.segment_index) {
                Some(size) => {
                    if size > b.stop_ptr {
                        return Err(VerificationError::OutOfBoundsBuiltinSegmentAccess);
                    }
                },
                None => {},
            }
        }
    }
    // Check the program segment for out-of-bounds accesses.
    let base = match runner.program_base {
        Some(base) => base,
        None => { return Err(VerificationError::MissingProgramBase) },
    };
    let program_segment_index = match segment_index_to_usize(base.segment_index) {
        Some(idx) => idx,
        None => { return Err(VerificationError::MissingProgramBase) },
    };
    match vm.memory.effective_size(program_segment_index) {
        Some(size) => {
            if size > runner.program_length {
                return Err(VerificationError::OutOfBoundsProgramSegmentAccess);
            }
        },
        None => {},
    }
    // Check that every address left in real memory is itself real: each
    // temporary address must have been relocated. When no temporary segment
    // was ever allocated, no temporary address was ever handed out, and the
    // scan is skipped.
    if vm.memory.has_any_temporary_segment() {
        match find_first_temporary_address(&vm.memory) {
            Some(addr) => {
                return Err(VerificationError::InvalidMemoryValueTemporaryAddress(addr));
            },
            None => {},
        }
    }
    // Let every builtin audit its own segment's data.
    let builtin_count = vm.builtin_runners.len();
    for i in 0..builtin_count
        invariant
            first_audit_error_from(vm.builtin_runners@, vm.memory, 0) == first_audit_error_from(
                vm.builtin_runners@,
                vm.memory,
                i as int,
            ),
    {
        match vm.builtin_runners[i].1.run_security_checks(&vm.memory) {
            Ok(_) => {},
            Err(e) => {
                return Err(VerificationError::BuiltinSecurityFailure(e));
            },
        }
    }
    Ok(())
}

} // verus!
