use vm_security::builtins::{BuiltinRunner, BuiltinSecurityError};
use vm_security::memory::Memory;
use vm_security::relocatable::{MaybeRelocatable, Relocatable};
use vm_security::security::{
    verify_secure_runner, RunConfig, VerificationError, VirtualMachine,
};

fn reloc(segment_index: isize, offset: usize) -> Relocatable {
    Relocatable { segment_index, offset }
}

fn addr(segment_index: isize, offset: usize) -> Option<MaybeRelocatable> {
    Some(MaybeRelocatable::RelocatableValue(reloc(segment_index, offset)))
}

fn felt(value: u64) -> Option<MaybeRelocatable> {
    Some(MaybeRelocatable::Int(value))
}

fn machine(
    data: Vec<Vec<Option<MaybeRelocatable>>>,
    temp_data: Vec<Vec<Option<MaybeRelocatable>>>,
    builtin_runners: Vec<(String, BuiltinRunner)>,
) -> VirtualMachine {
    VirtualMachine { memory: Memory { data, temp_data }, builtin_runners }
}

fn range_check(base: usize, stop_ptr: usize) -> (String, BuiltinRunner) {
    ("range_check".to_string(), BuiltinRunner::RangeCheck { base, stop_ptr, bound: u64::MAX })
}

#[test]
fn verify_secure_runner_without_program_base() {
    let runner = RunConfig { program_base: None, program_length: 0 };
    let vm = machine(vec![], vec![], vec![]);

    assert_eq!(
        verify_secure_runner(&runner, true, &vm),
        Err(VerificationError::MissingProgramBase),
    );
}

#[test]
fn verify_secure_runner_empty_memory() {
    let runner = RunConfig { program_base: Some(reloc(0, 0)), program_length: 0 };
    let vm = machine(vec![], vec![], vec![]);

    assert_eq!(verify_secure_runner(&runner, true, &vm), Ok(()));
}

#[test]
fn verify_secure_runner_program_access_out_of_bounds() {
    let runner = RunConfig { program_base: Some(reloc(0, 0)), program_length: 0 };
    let vm = machine(vec![vec![felt(100)]], vec![], vec![]);

    assert_eq!(
        verify_secure_runner(&runner, true, &vm),
        Err(VerificationError::OutOfBoundsProgramSegmentAccess),
    );
}

#[test]
fn verify_secure_runner_builtin_access_out_of_bounds() {
    let runner = RunConfig { program_base: Some(reloc(0, 0)), program_length: 0 };
    let vm = machine(
        vec![vec![], vec![], vec![felt(1)]],
        vec![],
        vec![range_check(2, 0)],
    );

    assert_eq!(
        verify_secure_runner(&runner, true, &vm),
        Err(VerificationError::OutOfBoundsBuiltinSegmentAccess),
    );
}

#[test]
fn verify_secure_runner_builtin_access_correct() {
    let runner = RunConfig { program_base: Some(reloc(0, 0)), program_length: 0 };
    let vm = machine(
        vec![vec![], vec![], vec![felt(1)]],
        vec![],
        vec![range_check(2, 1)],
    );

    assert_eq!(verify_secure_runner(&runner, true, &vm), Ok(()));
}

#[test]
fn verify_secure_runner_success() {
    let runner = RunConfig { program_base: Some(reloc(0, 0)), program_length: 4 };
    let vm = machine(
        vec![vec![addr(1, 0), addr(2, 1), addr(3, 2), addr(4, 3)]],
        vec![],
        vec![],
    );

    assert_eq!(verify_secure_runner(&runner, true, &vm), Ok(()));
}

#[test]
fn verify_secure_runner_temporary_memory_properly_relocated() {
    let runner = RunConfig { program_base: Some(reloc(0, 0)), program_length: 4 };
    let vm = machine(
        vec![vec![addr(1, 0), addr(2, 1), addr(3, 2), addr(4, 3)]],
        vec![vec![addr(1, 2)]],
        vec![],
    );

    assert_eq!(verify_secure_runner(&runner, true, &vm), Ok(()));
}

#[test]
fn verify_secure_runner_temporary_memory_not_fully_relocated() {
    let runner = RunConfig { program_base: Some(reloc(0, 0)), program_length: 4 };
    let vm = machine(
        vec![vec![addr(1, 0), addr(2, 1), addr(-3, 2), addr(4, 3)]],
        vec![vec![addr(1, 2)]],
        vec![],
    );

    assert_eq!(
        verify_secure_runner(&runner, true, &vm),
        Err(VerificationError::InvalidMemoryValueTemporaryAddress(reloc(-3, 2))),
    );
}

#[test]
fn negative_program_base_counts_as_missing() {
    let runner = RunConfig { program_base: Some(reloc(-1, 0)), program_length: 4 };
    let vm = machine(vec![vec![felt(0)]], vec![], vec![]);

    assert_eq!(
        verify_secure_runner(&runner, true, &vm),
        Err(VerificationError::MissingProgramBase),
    );
}

#[test]
fn temporary_address_without_temporary_segment_is_a_blind_spot() {
    // Identical real memory to the not-fully-relocated case, but with no
    // temporary segment ever allocated the leakage scan is skipped entirely.
    let runner = RunConfig { program_base: Some(reloc(0, 0)), program_length: 4 };
    let vm = machine(
        vec![vec![addr(1, 0), addr(2, 1), addr(-3, 2), addr(4, 3)]],
        vec![],
        vec![],
    );

    assert_eq!(verify_secure_runner(&runner, true, &vm), Ok(()));
}

#[test]
fn error_carries_first_temporary_address_in_scan_order() {
    let runner = RunConfig { program_base: Some(reloc(0, 0)), program_length: 4 };
    let vm = machine(
        vec![
            vec![felt(7), None, addr(-1, 5), addr(-2, 0)],
            vec![addr(-9, 9)],
        ],
        vec![vec![]],
        vec![],
    );

    assert_eq!(
        verify_secure_runner(&runner, true, &vm),
        Err(VerificationError::InvalidMemoryValueTemporaryAddress(reloc(-1, 5))),
    );
}

#[test]
fn builtin_bound_check_skipped_when_disabled() {
    // The same layout fails with the flag set, and passes without it.
    let runner = RunConfig { program_base: Some(reloc(0, 0)), program_length: 0 };
    let vm = machine(
        vec![vec![], vec![], vec![felt(1)]],
        vec![],
        vec![range_check(2, 0)],
    );

    assert_eq!(
        verify_secure_runner(&runner, true, &vm),
        Err(VerificationError::OutOfBoundsBuiltinSegmentAccess),
    );
    assert_eq!(verify_secure_runner(&runner, false, &vm), Ok(()));
}

#[test]
fn builtin_with_absent_segment_passes_bound_check() {
    let runner = RunConfig { program_base: Some(reloc(0, 0)), program_length: 0 };
    let vm = machine(vec![], vec![], vec![range_check(5, 0)]);

    assert_eq!(verify_secure_runner(&runner, true, &vm), Ok(()));
}

#[test]
fn builtin_audit_rejects_out_of_range_value() {
    let runner = RunConfig { program_base: Some(reloc(0, 0)), program_length: 0 };
    let builtin = BuiltinRunner::RangeCheck { base: 1, stop_ptr: 4, bound: 10 };
    let vm = machine(
        vec![vec![], vec![felt(3), None, felt(100)]],
        vec![],
        vec![("range_check".to_string(), builtin)],
    );

    assert_eq!(
        verify_secure_runner(&runner, true, &vm),
        Err(VerificationError::BuiltinSecurityFailure(
            BuiltinSecurityError::ValueOutOfRange { offset: 2, value: 100 },
        )),
    );
}

#[test]
fn builtin_audit_rejects_address_cell() {
    let runner = RunConfig { program_base: Some(reloc(0, 0)), program_length: 0 };
    let builtin = BuiltinRunner::RangeCheck { base: 1, stop_ptr: 4, bound: 10 };
    let vm = machine(
        vec![vec![], vec![felt(3), addr(0, 0)]],
        vec![],
        vec![("range_check".to_string(), builtin)],
    );

    assert_eq!(
        verify_secure_runner(&runner, true, &vm),
        Err(VerificationError::BuiltinSecurityFailure(
            BuiltinSecurityError::NonIntegerValue { offset: 1 },
        )),
    );
}

#[test]
fn builtin_audits_run_even_when_bound_check_is_disabled() {
    let runner = RunConfig { program_base: Some(reloc(0, 0)), program_length: 0 };
    let builtin = BuiltinRunner::RangeCheck { base: 1, stop_ptr: 4, bound: 10 };
    let vm = machine(
        vec![vec![], vec![felt(100)]],
        vec![],
        vec![("range_check".to_string(), builtin)],
    );

    assert_eq!(
        verify_secure_runner(&runner, false, &vm),
        Err(VerificationError::BuiltinSecurityFailure(
            BuiltinSecurityError::ValueOutOfRange { offset: 0, value: 100 },
        )),
    );
}

#[test]
fn first_failing_builtin_in_registration_order_reports() {
    let runner = RunConfig { program_base: Some(reloc(0, 0)), program_length: 0 };
    let first = BuiltinRunner::RangeCheck { base: 1, stop_ptr: 4, bound: 10 };
    let second = BuiltinRunner::RangeCheck { base: 2, stop_ptr: 4, bound: 10 };
    let vm = machine(
        vec![vec![], vec![felt(50)], vec![felt(60)]],
        vec![],
        vec![
            ("range_check".to_string(), first),
            ("range_check96".to_string(), second),
        ],
    );

    assert_eq!(
        verify_secure_runner(&runner, true, &vm),
        Err(VerificationError::BuiltinSecurityFailure(
            BuiltinSecurityError::ValueOutOfRange { offset: 0, value: 50 },
        )),
    );
}

#[test]
fn output_builtin_audit_always_passes() {
    let runner = RunConfig { program_base: Some(reloc(0, 0)), program_length: 0 };
    let builtin = BuiltinRunner::Output { base: 1, stop_ptr: 2 };
    let vm = machine(
        vec![vec![], vec![addr(0, 0), felt(u64::MAX)]],
        vec![],
        vec![("output".to_string(), builtin)],
    );

    assert_eq!(verify_secure_runner(&runner, true, &vm), Ok(()));
}

#[test]
fn builtin_bound_failure_comes_before_missing_program_base() {
    // The builtin bound step runs first, so it wins over the unset base.
    let runner = RunConfig { program_base: None, program_length: 0 };
    let vm = machine(
        vec![vec![], vec![], vec![felt(1)]],
        vec![],
        vec![range_check(2, 0)],
    );

    assert_eq!(
        verify_secure_runner(&runner, true, &vm),
        Err(VerificationError::OutOfBoundsBuiltinSegmentAccess),
    );
}

#[test]
fn effective_size_and_temporary_segment_queries() {
    let memory = Memory {
        data: vec![vec![felt(1), None, felt(2)], vec![]],
        temp_data: vec![],
    };
    assert_eq!(memory.effective_size(0), Some(3));
    assert_eq!(memory.effective_size(1), Some(0));
    assert_eq!(memory.effective_size(2), None);
    assert!(!memory.has_any_temporary_segment());

    let with_temp = Memory { data: vec![], temp_data: vec![vec![]] };
    assert!(with_temp.has_any_temporary_segment());

    let fresh = Memory::new();
    assert_eq!(fresh.effective_size(0), None);
    assert!(!fresh.has_any_temporary_segment());
}

#[test]
fn address_sign_classifies_temporary() {
    assert!(reloc(-1, 0).is_temporary());
    assert!(!reloc(0, 7).is_temporary());
}
