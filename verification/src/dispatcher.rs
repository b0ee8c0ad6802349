use vstd::prelude::*;

use crate::cpu::{cpu_index, cpu_of, CpuId, MAX_CORES};
use crate::tricore::{CoreState, Event, RunEvent};

verus! {

/// The decision of one iteration of the blocking wait: what the event loop
/// does next.
#[derive(Debug, Clone, Copy, PartialEq, Eq, Structural)]
pub enum PollOutcome {
    /// Debugger bytes are pending; they are handled before any hardware is
    /// touched.
    IncomingData,
    /// The first core found in a debug stop or halted, with the event it
    /// reports.
    Stopped(Event, CpuId),
    /// The first core whose reported state is outside the documented set; a
    /// reportable condition, never a silent continue.
    Fault(CpuId),
    /// Nothing reportable this round; poll again.
    Continue,
}

/// The scan of the core states from index `i` upward, in ascending core
/// order. The first core with a stop-worthy report decides: a debug stop or
/// a halt is reported as a breakpoint event, an undocumented state as a
/// fault. A running core is skipped, as is a core whose state query failed
/// (`None`).
pub open spec fn scan_from(states: Seq<Option<CoreState>>, i: int) -> PollOutcome
    decreases states.len() - i,
{
    if i < 0 || i >= states.len() {
        PollOutcome::Continue
    } else {
        match states[i] {
            Some(CoreState::Debug) => PollOutcome::Stopped(Event::Break, cpu_of(i)),
            Some(CoreState::Halted) => PollOutcome::Stopped(Event::Break, cpu_of(i)),
            Some(CoreState::Custom) => PollOutcome::Fault(cpu_of(i)),
            Some(CoreState::Unknown) => PollOutcome::Fault(cpu_of(i)),
            _ => scan_from(states, i + 1),
        }
    }
}

/// Decide one iteration of the event loop. Pending connection input wins
/// outright — it is answered without touching hardware, so protocol traffic
/// is never starved by polling — and otherwise the ascending scan of the
/// core states decides.
pub fn poll_decision(input_pending: bool, states: &Vec<Option<CoreState>>) -> (r: PollOutcome)
    requires
        states@.len() <= MAX_CORES,
    ensures
        input_pending ==> r == PollOutcome::IncomingData,
        !input_pending ==> r == scan_from(states@, 0),
{
    if input_pending {
        return PollOutcome::IncomingData;
    }
    let count = states.len();
    let mut index: usize = 0;
    while index < count
        invariant
            !input_pending,
            index <= count,
            count == states@.len(),
            count <= MAX_CORES,
            scan_from(states@, 0) == scan_from(states@, index as int),
        decreases count - index,
    {
        let id = match CpuId::try_from(index) {
            Ok(id) => id,
            Err(_) => {
                proof {
                    assert(false);
                }
                CpuId::Cpu0
            },
        };
        proof {
            assert(cpu_of(index as int) == id);
        }
        match states[index] {
            Some(CoreState::Debug) => {
                return PollOutcome::Stopped(Event::Break, id);
            },
            Some(CoreState::Halted) => {
                return PollOutcome::Stopped(Event::Break, id);
            },
            Some(CoreState::Custom) => {
                return PollOutcome::Fault(id);
            },
            Some(CoreState::Unknown) => {
                return PollOutcome::Fault(id);
            },
            Some(CoreState::Running) => {},
            None => {},
        }
        index = index + 1;
    }
    PollOutcome::Continue
}

/// The event that one decision lets the blocking wait report, if any:
/// pending input or a stopped core end the wait as run events, a fault ends
/// it as an error, and a continue keeps polling.
pub fn to_run_event(outcome: PollOutcome) -> (r: Option<RunEvent>)
    ensures
        outcome == PollOutcome::IncomingData ==> r == Some(RunEvent::IncomingData),
        outcome matches PollOutcome::Stopped(e, c) ==> r == Some(RunEvent::Event(e, c)),
        outcome matches PollOutcome::Fault(_) ==> r is None,
        outcome == PollOutcome::Continue ==> r is None,
{
    match outcome {
        PollOutcome::IncomingData => Some(RunEvent::IncomingData),
        PollOutcome::Stopped(event, cpu_id) => Some(RunEvent::Event(event, cpu_id)),
        PollOutcome::Fault(_) => None,
        PollOutcome::Continue => None,
    }
}

/// The scan reports the first stop-worthy core and nothing else: a reported
/// stop names a halted or debug-stopped core and every core before it was
/// running or unreachable, a reported fault names the first core with an
/// undocumented state, a scan that continues saw nothing but running or
/// unreachable cores, and the scan alone never reports incoming data.
pub proof fn lemma_scan_first_match(states: Seq<Option<CoreState>>, i: int)
    requires
        0 <= i <= states.len(),
        states.len() <= MAX_CORES,
    ensures
        scan_from(states, i) matches PollOutcome::Stopped(e, id) ==> {
            let c = cpu_index(id);
            &&& i <= c < states.len()
            &&& e == Event::Break
            &&& (states[c] == Some(CoreState::Debug) || states[c] == Some(CoreState::Halted))
            &&& forall|j: int|
                i <= j < c ==> states[j] == Some(CoreState::Running) || states[j] is None
        },
        scan_from(states, i) matches PollOutcome::Fault(id) ==> {
            let c = cpu_index(id);
            &&& i <= c < states.len()
            &&& (states[c] == Some(CoreState::Custom) || states[c] == Some(CoreState::Unknown))
            &&& forall|j: int|
                i <= j < c ==> states[j] == Some(CoreState::Running) || states[j] is None
        },
        scan_from(states, i) == PollOutcome::Continue ==> forall|j: int|
            i <= j < states.len() ==> states[j] == Some(CoreState::Running) || states[j] is None,
        !(scan_from(states, i) is IncomingData),
    decreases states.len() - i,
{
    if i < states.len() {
        lemma_scan_first_match(states, i + 1);
    }
}

} // verus!
