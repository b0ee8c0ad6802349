use tricore_gdb_das::cpu::{cpuid_to_tid, tid_to_cpuid, CpuId, MAX_CORES};
use tricore_gdb_das::errors::TricoreTargetError;
use tricore_gdb_das::registry::CoreRegistry;
use tricore_gdb_das::resume::{CoreCommand, CoreOutcome, IssuedCommand, ResumeAction, ResumeTable};
use tricore_gdb_das::target::TricoreTarget;

#[test]
fn tid_mapping_is_one_based_and_bijective() {
    let ids = [
        CpuId::Cpu0,
        CpuId::Cpu1,
        CpuId::Cpu2,
        CpuId::Cpu3,
        CpuId::Cpu4,
        CpuId::Cpu5,
    ];
    for (index, id) in ids.iter().enumerate() {
        assert_eq!(id.index(), index);
        assert_eq!(cpuid_to_tid(*id), index + 1);
        assert_eq!(tid_to_cpuid(index + 1).unwrap(), *id);
        assert_eq!(CpuId::try_from(index).unwrap(), *id);
    }
}

#[test]
fn tid_mapping_rejects_out_of_range() {
    assert!(tid_to_cpuid(0).is_err());
    assert!(tid_to_cpuid(MAX_CORES + 1).is_err());
    assert!(CpuId::try_from(MAX_CORES).is_err());
}

#[test]
fn registry_resolves_every_advertised_tid() {
    let reg = CoreRegistry::new(3);
    assert_eq!(reg.core_count(), 3);
    assert_eq!(reg.resolve(1).unwrap(), 0);
    assert_eq!(reg.resolve(2).unwrap(), 1);
    assert_eq!(reg.resolve(3).unwrap(), 2);
    assert_eq!(reg.resolve_cpu(2).unwrap(), CpuId::Cpu1);
}

#[test]
fn registry_reports_invalid_tids_without_clamping() {
    let reg = CoreRegistry::new(3);
    assert_eq!(
        reg.resolve(0).unwrap_err(),
        TricoreTargetError::InvalidCoreReference(0)
    );
    assert_eq!(
        reg.resolve(4).unwrap_err(),
        TricoreTargetError::InvalidCoreReference(4)
    );
    assert_eq!(
        reg.resolve_cpu(9).unwrap_err(),
        TricoreTargetError::InvalidCoreReference(9)
    );
}

#[test]
fn registry_enumerates_tids_in_discovery_order() {
    let reg = CoreRegistry::new(4);
    assert_eq!(reg.enumerate(), vec![1, 2, 3, 4]);
}

#[test]
fn only_memory_faults_are_non_fatal() {
    assert!(!TricoreTargetError::MemoryAccessFailure.is_fatal());
    assert!(TricoreTargetError::InvalidCoreReference(7).is_fatal());
    assert!(TricoreTargetError::RegisterAccessFailure.is_fatal());
    assert!(TricoreTargetError::BreakpointOperationFailure(0x100).is_fatal());
    assert!(TricoreTargetError::UnsupportedOperation.is_fatal());
}

#[test]
fn every_failure_kind_has_its_diagnostic_text() {
    assert_eq!(
        TricoreTargetError::InvalidCoreReference(9).description(),
        "specified invalid core"
    );
    assert_eq!(
        TricoreTargetError::RegisterAccessFailure.description(),
        "cannot read the register window"
    );
    assert_eq!(
        TricoreTargetError::MemoryAccessFailure.description(),
        "memory access failed"
    );
    assert_eq!(
        TricoreTargetError::BreakpointOperationFailure(0x40).description(),
        "breakpoint operation failed"
    );
    assert_eq!(
        TricoreTargetError::UnsupportedOperation.description(),
        "operation not supported"
    );
}

#[test]
fn fresh_resume_table_leaves_every_core_unchanged() {
    let table = ResumeTable::new(3);
    assert_eq!(table.core_count(), 3);
    for core in 0..3 {
        assert_eq!(table.get(core), ResumeAction::Unchanged);
    }
    assert_eq!(table.plan(), vec![]);
}

#[test]
fn stepping_one_core_issues_exactly_one_step_call() {
    let mut table = ResumeTable::new(3);
    table.set(1, ResumeAction::Step);
    let plan = table.plan();
    assert_eq!(
        plan,
        vec![IssuedCommand {
            core: 1,
            command: CoreCommand::Step,
        }]
    );
}

#[test]
fn plan_visits_cores_in_ascending_order() {
    let mut table = ResumeTable::new(4);
    table.set(3, ResumeAction::Step);
    table.set(0, ResumeAction::Resume);
    table.set(2, ResumeAction::Resume);
    let plan = table.plan();
    assert_eq!(
        plan,
        vec![
            IssuedCommand {
                core: 0,
                command: CoreCommand::Run,
            },
            IssuedCommand {
                core: 2,
                command: CoreCommand::Run,
            },
            IssuedCommand {
                core: 3,
                command: CoreCommand::Step,
            },
        ]
    );
}

#[test]
fn plan_is_not_reset_by_reading_it() {
    let mut table = ResumeTable::new(2);
    table.set(0, ResumeAction::Resume);
    let first = table.plan();
    let second = table.plan();
    assert_eq!(first, second);
}

#[test]
fn apply_report_records_one_outcome_per_core() {
    let mut table = ResumeTable::new(3);
    table.set(0, ResumeAction::Resume);
    table.set(2, ResumeAction::Step);
    let results = vec![true, false];
    let report = table.apply_report(&results);
    assert_eq!(
        report,
        vec![
            CoreOutcome::Issued {
                command: CoreCommand::Run,
                ok: true,
            },
            CoreOutcome::Untouched,
            CoreOutcome::Issued {
                command: CoreCommand::Step,
                ok: false,
            },
        ]
    );
}

#[test]
fn clear_all_to_resets_every_slot() {
    let mut table = ResumeTable::new(3);
    table.set(1, ResumeAction::Step);
    table.clear_all_to(ResumeAction::Unchanged);
    for core in 0..3 {
        assert_eq!(table.get(core), ResumeAction::Unchanged);
    }
}

#[test]
fn continue_request_marks_exactly_the_named_core() {
    let mut target = TricoreTarget::new(3);
    assert_eq!(target.set_resume_action_continue(2, false), Ok(()));
    assert_eq!(target.resume_actions.get(0), ResumeAction::Unchanged);
    assert_eq!(target.resume_actions.get(1), ResumeAction::Resume);
    assert_eq!(target.resume_actions.get(2), ResumeAction::Unchanged);
}

#[test]
fn step_request_marks_exactly_the_named_core() {
    let mut target = TricoreTarget::new(3);
    assert_eq!(target.set_resume_action_step(1, false), Ok(()));
    assert_eq!(target.resume_actions.get(0), ResumeAction::Step);
    assert_eq!(target.resume_actions.get(1), ResumeAction::Unchanged);
    assert_eq!(target.resume_actions.get(2), ResumeAction::Unchanged);
}

#[test]
fn resuming_with_a_signal_is_unsupported() {
    let mut target = TricoreTarget::new(2);
    assert_eq!(
        target.set_resume_action_continue(1, true),
        Err(TricoreTargetError::UnsupportedOperation)
    );
    assert_eq!(
        target.set_resume_action_step(1, true),
        Err(TricoreTargetError::UnsupportedOperation)
    );
    assert_eq!(target.resume_actions.get(0), ResumeAction::Unchanged);
}

#[test]
fn resume_request_for_unknown_tid_is_reported() {
    let mut target = TricoreTarget::new(2);
    assert_eq!(
        target.set_resume_action_continue(5, false),
        Err(TricoreTargetError::InvalidCoreReference(5))
    );
    assert_eq!(
        target.set_resume_action_step(0, false),
        Err(TricoreTargetError::InvalidCoreReference(0))
    );
}

#[test]
fn clear_resume_actions_sets_every_slot_to_resume() {
    let mut target = TricoreTarget::new(3);
    target.set_resume_action_step(2, false).unwrap();
    target.clear_resume_actions();
    for core in 0..3 {
        assert_eq!(target.resume_actions.get(core), ResumeAction::Resume);
    }
}
