use vstd::prelude::*;

use crate::cpu::CpuId;

verus! {

/// A stop-worthy condition observed on one core.
#[derive(Debug, Clone, Copy, PartialEq, Eq, Structural)]
pub enum Event {
    DoneStep,
    Halted,
    Break,
    WatchWrite(u32),
    WatchRead(u32),
}

/// What one blocking wait of the event loop reports back.
#[derive(Debug, Clone, Copy, PartialEq, Eq, Structural)]
pub enum RunEvent {
    Event(Event, CpuId),
    IncomingData,
}

/// Execution state of one core as the hardware reports it each poll; the
/// coordinator only observes it, it never owns it.
#[derive(Debug, Clone, Copy, PartialEq, Eq, Structural)]
pub enum CoreState {
    Running,
    Halted,
    Debug,
    Custom,
    Unknown,
}

/// The classification of a stop that is reported to the debugger.
#[derive(Debug, Clone, Copy, PartialEq, Eq, Structural)]
pub enum StopReason {
    /// A single step completed.
    DoneStep,
    /// The target terminated; reported as stopped by a signal.
    Terminated,
    /// A software breakpoint was hit.
    SwBreak,
    /// A write watchpoint fired at the given address.
    WatchWrite(u32),
    /// A read watchpoint fired at the given address.
    WatchRead(u32),
    /// The user interrupted the target; a synthetic stop, no hardware state
    /// behind it.
    Interrupted,
}

/// The stop reason that a core event is reported as.
pub open spec fn spec_stop_reason(event: Event) -> StopReason {
    match event {
        Event::DoneStep => StopReason::DoneStep,
        Event::Halted => StopReason::Terminated,
        Event::Break => StopReason::SwBreak,
        Event::WatchWrite(addr) => StopReason::WatchWrite(addr),
        Event::WatchRead(addr) => StopReason::WatchRead(addr),
    }
}

/// Translate a core event into the stop reason handed to the protocol layer.
pub fn stop_reason_for(event: Event) -> (r: StopReason)
    ensures
        r == spec_stop_reason(event),
{
    match event {
        Event::DoneStep => StopReason::DoneStep,
        Event::Halted => StopReason::Terminated,
        Event::Break => StopReason::SwBreak,
        Event::WatchWrite(addr) => StopReason::WatchWrite(addr),
        Event::WatchRead(addr) => StopReason::WatchRead(addr),
    }
}

/// The stop reason for a user interrupt: input takes priority, the target is
/// reported as stopped by the interrupt without touching hardware state.
pub fn interrupt_stop_reason() -> (r: StopReason)
    ensures
        r == StopReason::Interrupted,
{
    StopReason::Interrupted
}

} // verus!
