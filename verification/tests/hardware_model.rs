use tricore_gdb_das::breakpoints::{
    remove_outcome, BreakpointManager, HwRequest, InsertStatus, TriggerHandle,
};
use tricore_gdb_das::cpu::CpuId;
use tricore_gdb_das::dispatcher::{poll_decision, to_run_event, PollOutcome};
use tricore_gdb_das::errors::TricoreTargetError;
use tricore_gdb_das::memory::{memory_read_outcome, memory_write_outcome};
use tricore_gdb_das::monitor::{monitor_response, MonitorReply};
use tricore_gdb_das::registers::{
    build_window, window_order, window_values, write_window, RegisterName, RegisterWindow,
    WINDOW_LEN,
};
use tricore_gdb_das::tricore::{
    interrupt_stop_reason, stop_reason_for, CoreState, Event, RunEvent, StopReason,
};

fn sample_window() -> RegisterWindow {
    RegisterWindow {
        a10: 0x1000,
        a11: 0x1001,
        a12: 0x1002,
        a13: 0x1003,
        a14: 0x1004,
        a15: 0x1005,
        d8: 8,
        d9: 9,
        d10: 10,
        d11: 11,
        d12: 12,
        d13: 13,
        d14: 14,
        d15: 15,
        pc: 0x8000_0000,
        pcxi: 0x2222,
        psw: 0x3333,
    }
}

#[test]
fn clean_insert_creates_one_trigger_per_core() {
    let mut mgr = BreakpointManager::new(3);
    let run = mgr.insert_with_outcomes(0x100, &vec![true, true, true]);
    assert_eq!(run.result, Ok(true));
    assert_eq!(
        run.requests,
        vec![
            HwRequest::CreateTrigger { core: 0, addr: 0x100 },
            HwRequest::CreateTrigger { core: 1, addr: 0x100 },
            HwRequest::CreateTrigger { core: 2, addr: 0x100 },
        ]
    );
    assert!(mgr.is_installed(0x100));
    assert_eq!(mgr.entries.len(), 1);
    assert_eq!(mgr.entries[0].addr, 0x100);
    assert_eq!(mgr.entries[0].triggers.len(), 3);
    for (core, handle) in mgr.entries[0].triggers.iter().enumerate() {
        assert_eq!(*handle, TriggerHandle { core, addr: 0x100 });
    }
}

#[test]
fn inserting_twice_is_idempotent() {
    let mut mgr = BreakpointManager::new(3);
    mgr.insert_with_outcomes(0x100, &vec![true, true, true]);
    let second = mgr.insert_with_outcomes(0x100, &vec![true, true, true]);
    assert_eq!(second.result, Ok(true));
    assert_eq!(second.requests, vec![]);
    assert_eq!(mgr.entries.len(), 1);
    assert_eq!(mgr.entries[0].triggers.len(), 3);
}

#[test]
fn failed_insert_rolls_back_every_created_trigger() {
    let mut mgr = BreakpointManager::new(3);
    let run = mgr.insert_with_outcomes(0x200, &vec![true, false, true]);
    assert_eq!(
        run.result,
        Err(TricoreTargetError::BreakpointOperationFailure(0x200))
    );
    assert_eq!(
        run.requests,
        vec![
            HwRequest::CreateTrigger { core: 0, addr: 0x200 },
            HwRequest::CreateTrigger { core: 1, addr: 0x200 },
            HwRequest::RemoveTrigger { core: 0, addr: 0x200 },
        ]
    );
    assert!(!mgr.is_installed(0x200));
    assert_eq!(mgr.entries.len(), 0);
}

#[test]
fn failure_on_first_core_needs_no_rollback() {
    let mut mgr = BreakpointManager::new(2);
    let run = mgr.insert_with_outcomes(0x300, &vec![false, true]);
    assert_eq!(
        run.result,
        Err(TricoreTargetError::BreakpointOperationFailure(0x300))
    );
    assert_eq!(
        run.requests,
        vec![HwRequest::CreateTrigger { core: 0, addr: 0x300 }]
    );
    assert!(!mgr.is_installed(0x300));
}

#[test]
fn insert_flow_asks_for_rollback_after_a_failure() {
    let mgr = BreakpointManager::new(3);
    let mut flow = mgr.begin_insert(0x400);
    assert_eq!(flow.status, InsertStatus::Creating);
    assert_eq!(
        flow.next_request(),
        Some(HwRequest::CreateTrigger { core: 0, addr: 0x400 })
    );
    flow.on_created(true);
    assert_eq!(
        flow.next_request(),
        Some(HwRequest::CreateTrigger { core: 1, addr: 0x400 })
    );
    flow.on_created(false);
    assert_eq!(flow.status, InsertStatus::Failed { failed_core: 1 });
    assert_eq!(
        flow.next_request(),
        Some(HwRequest::RemoveTrigger { core: 0, addr: 0x400 })
    );
    flow.on_removed();
    assert_eq!(flow.next_request(), None);
    let mut mgr = mgr;
    assert_eq!(
        mgr.finish_insert(flow),
        Err(TricoreTargetError::BreakpointOperationFailure(0x400))
    );
    assert_eq!(mgr.entries.len(), 0);
}

#[test]
fn removing_an_installed_breakpoint_hands_back_every_handle() {
    let mut mgr = BreakpointManager::new(3);
    mgr.insert_with_outcomes(0x100, &vec![true, true, true]);
    let report = mgr.remove(0x100);
    assert!(report.found);
    assert_eq!(
        report.to_remove,
        vec![
            TriggerHandle { core: 0, addr: 0x100 },
            TriggerHandle { core: 1, addr: 0x100 },
            TriggerHandle { core: 2, addr: 0x100 },
        ]
    );
    assert!(!mgr.is_installed(0x100));
    assert_eq!(remove_outcome(0x100, report.found, 0), Ok(true));
}

#[test]
fn removing_a_never_inserted_address_reports_not_found() {
    let mut mgr = BreakpointManager::new(3);
    let report = mgr.remove(0x900);
    assert!(!report.found);
    assert_eq!(report.to_remove, vec![]);
    assert_eq!(remove_outcome(0x900, report.found, 0), Ok(false));
}

#[test]
fn removal_failures_are_surfaced_but_the_map_stays_clean() {
    let mut mgr = BreakpointManager::new(2);
    mgr.insert_with_outcomes(0x500, &vec![true, true]);
    let report = mgr.remove(0x500);
    assert!(report.found);
    assert!(!mgr.is_installed(0x500));
    assert_eq!(
        remove_outcome(0x500, report.found, 1),
        Err(TricoreTargetError::BreakpointOperationFailure(0x500))
    );
}

#[test]
fn removing_one_address_leaves_the_others_installed() {
    let mut mgr = BreakpointManager::new(2);
    mgr.insert_with_outcomes(0x100, &vec![true, true]);
    mgr.insert_with_outcomes(0x200, &vec![true, true]);
    mgr.remove(0x100);
    assert!(!mgr.is_installed(0x100));
    assert!(mgr.is_installed(0x200));
}

#[test]
fn dispatcher_reports_the_halted_core_not_a_running_one() {
    let states = vec![
        Some(CoreState::Running),
        Some(CoreState::Running),
        Some(CoreState::Halted),
    ];
    assert_eq!(
        poll_decision(false, &states),
        PollOutcome::Stopped(Event::Break, CpuId::Cpu2)
    );
}

#[test]
fn pending_input_takes_priority_over_a_halted_core() {
    let states = vec![Some(CoreState::Halted)];
    assert_eq!(poll_decision(true, &states), PollOutcome::IncomingData);
}

#[test]
fn dispatcher_reports_the_first_stopped_core() {
    let states = vec![
        Some(CoreState::Running),
        Some(CoreState::Debug),
        Some(CoreState::Halted),
    ];
    assert_eq!(
        poll_decision(false, &states),
        PollOutcome::Stopped(Event::Break, CpuId::Cpu1)
    );
}

#[test]
fn undocumented_states_are_faults_not_silent_continues() {
    let custom = vec![Some(CoreState::Running), Some(CoreState::Custom)];
    assert_eq!(
        poll_decision(false, &custom),
        PollOutcome::Fault(CpuId::Cpu1)
    );
    let unknown = vec![Some(CoreState::Unknown)];
    assert_eq!(
        poll_decision(false, &unknown),
        PollOutcome::Fault(CpuId::Cpu0)
    );
}

#[test]
fn all_running_cores_mean_keep_polling() {
    let states = vec![Some(CoreState::Running), Some(CoreState::Running)];
    assert_eq!(poll_decision(false, &states), PollOutcome::Continue);
    assert_eq!(poll_decision(false, &vec![]), PollOutcome::Continue);
}

#[test]
fn a_failed_state_query_is_skipped() {
    let states = vec![None, Some(CoreState::Halted)];
    assert_eq!(
        poll_decision(false, &states),
        PollOutcome::Stopped(Event::Break, CpuId::Cpu1)
    );
    assert_eq!(poll_decision(false, &vec![None]), PollOutcome::Continue);
}

#[test]
fn only_input_and_stops_end_the_wait_as_run_events() {
    assert_eq!(
        to_run_event(PollOutcome::IncomingData),
        Some(RunEvent::IncomingData)
    );
    assert_eq!(
        to_run_event(PollOutcome::Stopped(Event::Break, CpuId::Cpu2)),
        Some(RunEvent::Event(Event::Break, CpuId::Cpu2))
    );
    assert_eq!(to_run_event(PollOutcome::Fault(CpuId::Cpu0)), None);
    assert_eq!(to_run_event(PollOutcome::Continue), None);
}

#[test]
fn every_core_event_maps_to_its_stop_reason() {
    assert_eq!(stop_reason_for(Event::DoneStep), StopReason::DoneStep);
    assert_eq!(stop_reason_for(Event::Halted), StopReason::Terminated);
    assert_eq!(stop_reason_for(Event::Break), StopReason::SwBreak);
    assert_eq!(
        stop_reason_for(Event::WatchWrite(0xA0)),
        StopReason::WatchWrite(0xA0)
    );
    assert_eq!(
        stop_reason_for(Event::WatchRead(0xB0)),
        StopReason::WatchRead(0xB0)
    );
    assert_eq!(interrupt_stop_reason(), StopReason::Interrupted);
}

#[test]
fn window_order_lists_all_registers_by_name() {
    let order = window_order();
    assert_eq!(order.len(), WINDOW_LEN);
    let names: Vec<&'static str> = order.iter().map(|n| n.name_str()).collect();
    assert_eq!(
        names,
        vec![
            "A10", "A11", "A12", "A13", "A14", "A15", "D8", "D9", "D10", "D11", "D12", "D13",
            "D14", "D15", "PC", "PCXI", "PSW",
        ]
    );
    assert_eq!(order[0], RegisterName::A10);
    assert_eq!(order[16], RegisterName::Psw);
}

#[test]
fn a_full_set_of_reads_builds_the_window() {
    let w = sample_window();
    let values: Vec<Option<u32>> = window_values(&w).into_iter().map(Some).collect();
    let rebuilt = build_window(&values).unwrap();
    assert_eq!(rebuilt, w);
}

#[test]
fn a_single_failed_read_fails_the_whole_window() {
    let w = sample_window();
    let mut values: Vec<Option<u32>> = window_values(&w).into_iter().map(Some).collect();
    values[7] = None;
    assert_eq!(
        build_window(&values),
        Err(TricoreTargetError::RegisterAccessFailure)
    );
}

#[test]
fn a_short_read_list_fails_the_whole_window() {
    let values = vec![Some(1u32), Some(2u32)];
    assert_eq!(
        build_window(&values),
        Err(TricoreTargetError::RegisterAccessFailure)
    );
}

#[test]
fn register_write_fails_loudly_as_unsupported() {
    let w = sample_window();
    assert_eq!(
        write_window(&w),
        Err(TricoreTargetError::UnsupportedOperation)
    );
}

#[test]
fn memory_read_must_return_exactly_the_requested_bytes() {
    let bytes = vec![1u8, 2, 3, 4];
    assert_eq!(memory_read_outcome(4, Some(bytes.clone())), Ok(bytes));
    assert_eq!(
        memory_read_outcome(8, Some(vec![1u8, 2, 3, 4])),
        Err(TricoreTargetError::MemoryAccessFailure)
    );
    assert_eq!(
        memory_read_outcome(4, None),
        Err(TricoreTargetError::MemoryAccessFailure)
    );
}

#[test]
fn memory_write_outcome_maps_faults_to_memory_failures() {
    assert_eq!(memory_write_outcome(true), Ok(()));
    assert_eq!(
        memory_write_outcome(false),
        Err(TricoreTargetError::MemoryAccessFailure)
    );
}

#[test]
fn monitor_ping_gets_pong() {
    assert_eq!(monitor_response(b""), MonitorReply::Hint);
    assert_eq!(monitor_response(b"ping"), MonitorReply::Pong);
    assert_eq!(monitor_response(b"pong"), MonitorReply::Unknown);
    assert_eq!(monitor_response(b"pin"), MonitorReply::Unknown);
    assert_eq!(monitor_response(b"pings"), MonitorReply::Unknown);
}
