use vstd::prelude::*;

use crate::cpu::{cpu_index, CpuId, MAX_CORES};
use crate::errors::TricoreTargetError;

verus! {

/// The live mapping between external 1-based thread ids and internal 0-based
/// core indices. It is built once, after the hardware has reported its core
/// count, and the count never changes for the life of the session.
#[derive(Debug, Clone, Copy, PartialEq, Eq, Structural)]
pub struct CoreRegistry {
    pub core_count: usize,
}

/// Whether a thread id falls inside the advertised range of a registry with
/// the given core count.
pub open spec fn tid_in_range(tid: usize, core_count: usize) -> bool {
    1 <= tid <= core_count
}

/// What resolution returns: the core index for an in-range thread id, and
/// nothing for any other id. A function of the immutable core count alone.
pub open spec fn spec_resolve(core_count: usize, tid: usize) -> Option<int> {
    if tid_in_range(tid, core_count) {
        Some(tid - 1)
    } else {
        None
    }
}

impl CoreRegistry {
    /// The number of cores the hardware reported at startup.
    pub open spec fn spec_core_count(&self) -> int {
        self.core_count as int
    }

    /// A registry is well formed when its count fits the six core slots the
    /// thread-id mapping supports, with at least one live core.
    pub open spec fn wf(&self) -> bool {
        1 <= self.core_count <= MAX_CORES
    }

    /// Build the registry from the core count the hardware reported.
    pub fn new(core_count: usize) -> (r: CoreRegistry)
        requires
            1 <= core_count <= MAX_CORES,
        ensures
            r.wf(),
            r.spec_core_count() == core_count,
    {
        CoreRegistry { core_count }
    }

    /// The number of cores, as an executable value.
    pub fn core_count(&self) -> (r: usize)
        ensures
            r == self.spec_core_count(),
    {
        self.core_count
    }

    /// Map a thread id to the core index it stands for. A thread id outside
    /// the advertised range is a distinct, reportable error, never a clamp
    /// and never a panic.
    pub fn resolve(&self, tid: usize) -> (r: Result<usize, TricoreTargetError>)
        ensures
            r matches Ok(index) ==> spec_resolve(self.core_count, tid) == Some(index as int),
            r is Err <==> spec_resolve(self.core_count, tid) is None,
            r matches Err(e) ==> e == TricoreTargetError::InvalidCoreReference(tid),
    {
        if 1 <= tid && tid <= self.core_count {
            Ok(tid - 1)
        } else {
            Err(TricoreTargetError::InvalidCoreReference(tid))
        }
    }

    /// Map a thread id to the identifier of the core it stands for.
    pub fn resolve_cpu(&self, tid: usize) -> (r: Result<CpuId, TricoreTargetError>)
        requires
            self.wf(),
        ensures
            r is Ok <==> tid_in_range(tid, self.core_count),
            r matches Ok(id) ==> cpu_index(id) + 1 == tid,
            r matches Err(e) ==> e == TricoreTargetError::InvalidCoreReference(tid),
    {
        match self.resolve(tid) {
            Ok(index) => {
                match CpuId::try_from(index) {
                    Ok(id) => Ok(id),
                    Err(_) => Err(TricoreTargetError::InvalidCoreReference(tid)),
                }
            },
            Err(e) => Err(e),
        }
    }

    /// The ordered list of thread ids advertised to the debugger: one per
    /// live core, in core discovery order.
    pub fn enumerate(&self) -> (r: Vec<usize>)
        ensures
            r@.len() == self.spec_core_count(),
            forall|i: int| 0 <= i < r@.len() ==> r@[i] == i + 1,
    {
        let mut tids: Vec<usize> = Vec::new();
        let mut index: usize = 0;
        while index < self.core_count
            invariant
                index <= self.core_count,
                tids@.len() == index,
                forall|i: int| 0 <= i < tids@.len() ==> tids@[i] == i + 1,
            decreases self.core_count - index,
        {
            tids.push(index + 1);
            index = index + 1;
        }
        tids
    }
}

/// For every thread id in the advertised range, resolution is total,
/// deterministic and stable (it is a function of the immutable core count
/// alone), and a bijection onto the core indices: in-range ids resolve to
/// in-bounds indices, distinct ids resolve to distinct indices, and every
/// core index is reached from its advertised thread id.
pub proof fn lemma_resolve_bijective(core_count: usize)
    requires
        1 <= core_count <= MAX_CORES,
    ensures
        forall|tid: usize| #[trigger]
            tid_in_range(tid, core_count) ==> (spec_resolve(core_count, tid) matches Some(index)
                && 0 <= index < core_count),
        forall|t1: usize, t2: usize|
            tid_in_range(t1, core_count) && tid_in_range(t2, core_count) && #[trigger] spec_resolve(
                core_count,
                t1,
            ) == #[trigger] spec_resolve(core_count, t2) ==> t1 == t2,
        forall|index: int|
            0 <= index < core_count ==> #[trigger] spec_resolve(core_count, (index + 1) as usize)
                == Some(index),
{
}

} // verus!
