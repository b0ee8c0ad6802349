use vstd::prelude::*;

use crate::breakpoints::BreakpointManager;
use crate::cpu::MAX_CORES;
use crate::errors::TricoreTargetError;
use crate::registry::{tid_in_range, CoreRegistry};
use crate::resume::{ResumeAction, ResumeTable};

verus! {

/// The multi-core debug coordinator. It exclusively owns the thread-id
/// registry, the breakpoint map and the resume-action table for one
/// session; the hardware handles themselves stay with the session that
/// created them and never outlive it.
#[derive(Debug, Clone, PartialEq, Eq)]
pub struct TricoreTarget {
    pub registry: CoreRegistry,
    pub breakpoints: BreakpointManager,
    pub resume_actions: ResumeTable,
}

impl TricoreTarget {
    /// Every component agrees on the one core count reported at startup.
    pub open spec fn wf(&self) -> bool {
        &&& self.registry.wf()
        &&& self.breakpoints.wf()
        &&& self.breakpoints.core_count == self.registry.core_count
        &&& self.resume_actions.actions@.len() == self.registry.core_count
    }

    /// Build the coordinator once the hardware has reported its core count.
    /// Device discovery, connecting, the optional firmware flash and the
    /// per-core reset happen outside, before this; afterwards the count
    /// never changes.
    pub fn new(core_count: usize) -> (r: TricoreTarget)
        requires
            1 <= core_count <= MAX_CORES,
        ensures
            r.wf(),
            r.registry.core_count == core_count,
            r.breakpoints.entries@.len() == 0,
            forall|i: int|
                0 <= i < core_count ==> r.resume_actions.actions@[i] == ResumeAction::Unchanged,
    {
        TricoreTarget {
            registry: CoreRegistry::new(core_count),
            breakpoints: BreakpointManager::new(core_count),
            resume_actions: ResumeTable::new(core_count),
        }
    }

    /// Record "continue" for the core behind a thread id. Continuing with a
    /// signal is not supported and fails loudly; an out-of-range thread id
    /// is a reportable error; otherwise exactly that core's slot becomes
    /// Resume.
    pub fn set_resume_action_continue(&mut self, tid: usize, with_signal: bool) -> (r: Result<
        (),
        TricoreTargetError,
    >)
        requires
            old(self).wf(),
        ensures
            final(self).wf(),
            final(self).registry == old(self).registry,
            final(self).breakpoints == old(self).breakpoints,
            with_signal ==> r == Err::<(), TricoreTargetError>(
                TricoreTargetError::UnsupportedOperation,
            ) && *final(self) == *old(self),
            !with_signal && !tid_in_range(tid, old(self).registry.core_count) ==> r == Err::<
                (),
                TricoreTargetError,
            >(TricoreTargetError::InvalidCoreReference(tid)) && *final(self) == *old(self),
            !with_signal && tid_in_range(tid, old(self).registry.core_count) ==> r == Ok::<
                (),
                TricoreTargetError,
            >(()) && final(self).resume_actions.actions@ == old(self).resume_actions.actions@.update(tid - 1, ResumeAction::Resume),
    {
        self.set_resume_action(tid, with_signal, ResumeAction::Resume)
    }

    /// Record "single step" for the core behind a thread id, under the same
    /// rules as continuing.
    pub fn set_resume_action_step(&mut self, tid: usize, with_signal: bool) -> (r: Result<
        (),
        TricoreTargetError,
    >)
        requires
            old(self).wf(),
        ensures
            final(self).wf(),
            final(self).registry == old(self).registry,
            final(self).breakpoints == old(self).breakpoints,
            with_signal ==> r == Err::<(), TricoreTargetError>(
                TricoreTargetError::UnsupportedOperation,
            ) && *final(self) == *old(self),
            !with_signal && !tid_in_range(tid, old(self).registry.core_count) ==> r == Err::<
                (),
                TricoreTargetError,
            >(TricoreTargetError::InvalidCoreReference(tid)) && *final(self) == *old(self),
            !with_signal && tid_in_range(tid, old(self).registry.core_count) ==> r == Ok::<
                (),
                TricoreTargetError,
            >(()) && final(self).resume_actions.actions@ == old(self).resume_actions.actions@.update(tid - 1, ResumeAction::Step),
    {
        self.set_resume_action(tid, with_signal, ResumeAction::Step)
    }

    /// The shared path of the two protocol handlers above.
    fn set_resume_action(&mut self, tid: usize, with_signal: bool, action: ResumeAction) -> (r:
        Result<(), TricoreTargetError>)
        requires
            old(self).wf(),
        ensures
            final(self).wf(),
            final(self).registry == old(self).registry,
            final(self).breakpoints == old(self).breakpoints,
            with_signal ==> r == Err::<(), TricoreTargetError>(
                TricoreTargetError::UnsupportedOperation,
            ) && *final(self) == *old(self),
            !with_signal && !tid_in_range(tid, old(self).registry.core_count) ==> r == Err::<
                (),
                TricoreTargetError,
            >(TricoreTargetError::InvalidCoreReference(tid)) && *final(self) == *old(self),
            !with_signal && tid_in_range(tid, old(self).registry.core_count) ==> r == Ok::<
                (),
                TricoreTargetError,
            >(()) && final(self).resume_actions.actions@ == old(self).resume_actions.actions@.update(tid - 1, action),
    {
        if with_signal {
            return Err(TricoreTargetError::UnsupportedOperation);
        }
        match self.registry.resolve(tid) {
            Ok(index) => {
                self.resume_actions.set(index, action);
                Ok(())
            },
            Err(e) => Err(e),
        }
    }

    /// The protocol layer's explicit reset of the table, distinct from
    /// applying it: every slot becomes Resume, so a core the next request
    /// does not name will be resumed.
    pub fn clear_resume_actions(&mut self)
        requires
            old(self).wf(),
        ensures
            final(self).wf(),
            final(self).registry == old(self).registry,
            final(self).breakpoints == old(self).breakpoints,
            final(self).resume_actions.actions@.len() == old(self).resume_actions.actions@.len(),
            forall|i: int|
                0 <= i < final(self).resume_actions.actions@.len() ==> final(self).resume_actions.actions@[i] == ResumeAction::Resume,
    {
        self.resume_actions.clear_all_to(ResumeAction::Resume);
    }
}

} // verus!
