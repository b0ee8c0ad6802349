use vstd::prelude::*;

use crate::cpu::MAX_CORES;
use crate::errors::TricoreTargetError;

verus! {

/// The bookkeeping key of the hardware trigger that one breakpoint owns on
/// one core. The probe-side trigger object itself lives with the hardware
/// session, filed under exactly this core and address.
#[derive(Debug, Clone, Copy, PartialEq, Eq, Structural)]
pub struct TriggerHandle {
    pub core: usize,
    pub addr: u32,
}

/// One hardware request that a breakpoint operation asks the caller to
/// perform: create (and download) an instruction-address trigger on a core,
/// or remove the trigger a core holds.
#[derive(Debug, Clone, Copy, PartialEq, Eq, Structural)]
pub enum HwRequest {
    CreateTrigger { core: usize, addr: u32 },
    RemoveTrigger { core: usize, addr: u32 },
}

/// One installed software breakpoint: its address and the trigger handles,
/// one per core, in ascending core order.
#[derive(Debug, Clone, PartialEq, Eq)]
pub struct BreakpointEntry {
    pub addr: u32,
    pub triggers: Vec<TriggerHandle>,
}

/// Whether some entry carries the given address.
pub open spec fn contains_addr(entries: Seq<BreakpointEntry>, addr: u32) -> bool {
    exists|i: int| 0 <= i < entries.len() && entries[i].addr == addr
}

/// A well-formed entry for a system of `core_count` cores: one trigger per
/// core, filed under its core index and the entry's address.
pub open spec fn entry_wf(entry: BreakpointEntry, core_count: usize) -> bool {
    &&& entry.triggers@.len() == core_count
    &&& forall|t: int|
        0 <= t < entry.triggers@.len() ==> entry.triggers@[t] == (TriggerHandle {
            core: t as usize,
            addr: entry.addr,
        })
}

/// The software breakpoint map: address to the per-core trigger handles.
/// A breakpoint is either active on every core or not installed at all;
/// the map never holds a partial breakpoint.
#[derive(Debug, Clone, PartialEq, Eq)]
pub struct BreakpointManager {
    pub core_count: usize,
    pub entries: Vec<BreakpointEntry>,
}

impl BreakpointManager {
    /// Addresses are unique, and every installed breakpoint holds exactly
    /// one trigger per core.
    pub open spec fn wf(&self) -> bool {
        &&& 1 <= self.core_count <= MAX_CORES
        &&& forall|i: int, j: int|
            0 <= i < j < self.entries@.len() ==> self.entries@[i].addr != self.entries@[j].addr
        &&& forall|i: int|
            0 <= i < self.entries@.len() ==> entry_wf(#[trigger] self.entries@[i], self.core_count)
    }

    /// An empty map for a system with the given core count.
    pub fn new(core_count: usize) -> (r: BreakpointManager)
        requires
            1 <= core_count <= MAX_CORES,
        ensures
            r.wf(),
            r.core_count == core_count,
            r.entries@.len() == 0,
    {
        BreakpointManager { core_count, entries: Vec::new() }
    }

    /// The position of the entry for an address, if one is installed.
    fn find(&self, addr: u32) -> (r: Option<usize>)
        ensures
            r is Some <==> contains_addr(self.entries@, addr),
            r matches Some(i) ==> i < self.entries@.len() && self.entries@[i as int].addr == addr,
    {
        let count = self.entries.len();
        let mut index: usize = 0;
        while index < count
            invariant
                index <= count,
                count == self.entries@.len(),
                forall|i: int| 0 <= i < index ==> self.entries@[i].addr != addr,
            decreases count - index,
        {
            if self.entries[index].addr == addr {
                return Some(index);
            }
            index = index + 1;
        }
        None
    }

    /// Whether a breakpoint is installed at the address.
    pub fn is_installed(&self, addr: u32) -> (r: bool)
        ensures
            r <==> contains_addr(self.entries@, addr),
    {
        self.find(addr).is_some()
    }

    /// Begin installing a breakpoint. If the address is already installed
    /// the flow is born finished and asks for no hardware work at all;
    /// otherwise it will ask for one trigger per core, in ascending order.
    pub fn begin_insert(&self, addr: u32) -> (r: InsertFlow)
        requires
            self.wf(),
        ensures
            r.wf(),
            r.addr == addr,
            r.core_count == self.core_count,
            r.created == 0,
            r.status == InsertStatus::AlreadyInstalled <==> contains_addr(self.entries@, addr),
            !contains_addr(self.entries@, addr) ==> r.status == InsertStatus::Creating,
    {
        if self.is_installed(addr) {
            InsertFlow {
                addr,
                core_count: self.core_count,
                created: 0,
                status: InsertStatus::AlreadyInstalled,
            }
        } else {
            InsertFlow {
                addr,
                core_count: self.core_count,
                created: 0,
                status: InsertStatus::Creating,
            }
        }
    }

    /// Commit a finished insertion flow. An already-installed address and a
    /// freshly installed one both report success; a failed flow — whose
    /// every created trigger has been rolled back — surfaces the failure and
    /// leaves the map exactly as it was, so no partial breakpoint exists.
    pub fn finish_insert(&mut self, flow: InsertFlow) -> (r: Result<bool, TricoreTargetError>)
        requires
            old(self).wf(),
            flow.wf(),
            flow.core_count == old(self).core_count,
            flow.is_finished(),
            flow.status == InsertStatus::AlreadyInstalled ==> contains_addr(
                old(self).entries@,
                flow.addr,
            ),
            flow.status == InsertStatus::Installed ==> !contains_addr(
                old(self).entries@,
                flow.addr,
            ),
        ensures
            final(self).wf(),
            final(self).core_count == old(self).core_count,
            flow.status == InsertStatus::AlreadyInstalled ==> {
                &&& r == Ok::<bool, TricoreTargetError>(true)
                &&& final(self).entries@ == old(self).entries@
            },
            flow.status == InsertStatus::Installed ==> {
                &&& r == Ok::<bool, TricoreTargetError>(true)
                &&& final(self).entries@.len() == old(self).entries@.len() + 1
                &&& final(self).entries@[old(self).entries@.len() as int].addr == flow.addr
                &&& entry_wf(
                    final(self).entries@[old(self).entries@.len() as int],
                    old(self).core_count,
                )
                &&& contains_addr(final(self).entries@, flow.addr)
                &&& forall|i: int|
                    0 <= i < old(self).entries@.len() ==> final(self).entries@[i] == old(
                        self,
                    ).entries@[i]
            },
            flow.status matches InsertStatus::Failed { .. } ==> {
                &&& r == Err::<bool, TricoreTargetError>(
                    TricoreTargetError::BreakpointOperationFailure(flow.addr),
                )
                &&& final(self).entries@ == old(self).entries@
            },
    {
        match flow.status {
            InsertStatus::AlreadyInstalled => Ok(true),
            InsertStatus::Installed => {
                let mut triggers: Vec<TriggerHandle> = Vec::new();
                let mut core: usize = 0;
                while core < self.core_count
                    invariant
                        core <= self.core_count,
                        triggers@.len() == core,
                        forall|t: int|
                            0 <= t < core ==> triggers@[t] == (TriggerHandle {
                                core: t as usize,
                                addr: flow.addr,
                            }),
                    decreases self.core_count - core,
                {
                    triggers.push(TriggerHandle { core, addr: flow.addr });
                    core = core + 1;
                }
                let entry = BreakpointEntry { addr: flow.addr, triggers };
                self.entries.push(entry);
                proof {
                    assert(entry_wf(self.entries@[self.entries@.len() - 1], self.core_count));
                }
                Ok(true)
            },
            InsertStatus::Failed { .. } => Err(
                TricoreTargetError::BreakpointOperationFailure(flow.addr),
            ),
            InsertStatus::Creating => {
                proof {
                    // a finished flow is never still creating
                    assert(false);
                }
                Err(TricoreTargetError::BreakpointOperationFailure(flow.addr))
            },
        }
    }

    /// Run one whole insertion against a script of per-core creation
    /// outcomes, with no hardware behind it: `create_ok[i]` stands for the
    /// outcome the probe would report when asked to create the trigger on
    /// core `i`. The run drives the same flow the live path drives and
    /// returns every request it issued, in order. Its contract is the
    /// installation law: inserting an installed address asks for nothing
    /// and changes nothing; a clean run installs one trigger per core; a
    /// run whose first failure is on core `k` creates triggers on cores
    /// `0..=k` only, rolls back all `k` earlier cores, and leaves the map
    /// untouched.
    pub fn insert_with_outcomes(&mut self, addr: u32, create_ok: &Vec<bool>) -> (r: InsertRun)
        requires
            old(self).wf(),
            create_ok@.len() == old(self).core_count,
        ensures
            final(self).wf(),
            final(self).core_count == old(self).core_count,
            contains_addr(old(self).entries@, addr) ==> {
                &&& r.result == Ok::<bool, TricoreTargetError>(true)
                &&& final(self).entries@ == old(self).entries@
                &&& r.requests@.len() == 0
            },
            (!contains_addr(old(self).entries@, addr) && (forall|i: int|
                0 <= i < create_ok@.len() ==> create_ok@[i])) ==> {
                &&& r.result == Ok::<bool, TricoreTargetError>(true)
                &&& final(self).entries@.len() == old(self).entries@.len() + 1
                &&& contains_addr(final(self).entries@, addr)
                &&& r.requests@.len() == old(self).core_count
                &&& forall|i: int|
                    0 <= i < r.requests@.len() ==> r.requests@[i] == (HwRequest::CreateTrigger {
                        core: i as usize,
                        addr,
                    })
            },
            forall|k: int|
                (!contains_addr(old(self).entries@, addr) && 0 <= k < create_ok@.len()
                    && !(#[trigger] create_ok@[k]) && (forall|i: int|
                    0 <= i < k ==> create_ok@[i])) ==> {
                    &&& r.result == Err::<bool, TricoreTargetError>(
                        TricoreTargetError::BreakpointOperationFailure(addr),
                    )
                    &&& final(self).entries@ == old(self).entries@
                    &&& !contains_addr(final(self).entries@, addr)
                    &&& r.requests@.len() == k + 1 + k
                    &&& forall|i: int|
                        0 <= i <= k ==> r.requests@[i] == (HwRequest::CreateTrigger {
                            core: i as usize,
                            addr,
                        })
                    &&& forall|p: int|
                        k + 1 <= p < r.requests@.len() ==> #[trigger] r.requests@[p]
                            == (HwRequest::RemoveTrigger { core: (2 * k - p) as usize, addr })
                },
    {
        let ghost before = self.entries@;
        let ghost s = create_ok@;
        let count = self.core_count;
        let mut requests: Vec<HwRequest> = Vec::new();
        let mut flow = self.begin_insert(addr);
        if self.is_installed(addr) {
            let result = self.finish_insert(flow);
            return InsertRun { result, requests };
        }
        let mut k: usize = 0;
        while k < count
            invariant_except_break
                k <= count,
                count == self.core_count,
                self.entries@ == before,
                self.wf(),
                s == create_ok@,
                s.len() == count,
                !contains_addr(before, addr),
                flow.wf(),
                flow.addr == addr,
                flow.core_count == count,
                k < count ==> flow.status == InsertStatus::Creating && flow.created == k,
                k == count ==> flow.status == InsertStatus::Installed && flow.created == count,
                requests@.len() == k,
                forall|i: int|
                    0 <= i < k ==> requests@[i] == (HwRequest::CreateTrigger {
                        core: i as usize,
                        addr,
                    }),
                forall|i: int| 0 <= i < k ==> s[i],
            ensures
                count == self.core_count,
                self.entries@ == before,
                self.wf(),
                s == create_ok@,
                !contains_addr(before, addr),
                flow.wf(),
                flow.addr == addr,
                flow.core_count == count,
                (flow.status == InsertStatus::Installed && flow.created == count && requests@.len()
                    == count && (forall|i: int|
                    0 <= i < count ==> requests@[i] == (HwRequest::CreateTrigger {
                        core: i as usize,
                        addr,
                    })) && (forall|i: int| 0 <= i < count ==> s[i])) || (flow.status
                    == (InsertStatus::Failed { failed_core: flow.created }) && flow.created < count
                    && !s[flow.created as int] && (forall|i: int| 0 <= i < flow.created ==> s[i])
                    && requests@.len() == flow.created + 1 && (forall|i: int|
                    0 <= i <= flow.created ==> requests@[i] == (HwRequest::CreateTrigger {
                        core: i as usize,
                        addr,
                    }))),
            decreases count - k,
        {
            match flow.next_request() {
                Some(req) => requests.push(req),
                None => {
                    proof {
                        assert(false);
                    }
                },
            }
            let ok = create_ok[k];
            flow.on_created(ok);
            if !ok {
                break;
            }
            k = k + 1;
        }
        let installed = match flow.status {
            InsertStatus::Installed => true,
            _ => false,
        };
        if !installed {
            let ghost k0 = flow.created as int;
            while flow.created > 0
                invariant
                    count == self.core_count,
                    self.entries@ == before,
                    self.wf(),
                    s == create_ok@,
                    !contains_addr(before, addr),
                    flow.wf(),
                    flow.addr == addr,
                    flow.core_count == count,
                    flow.status == (InsertStatus::Failed { failed_core: k0 as usize }),
                    0 <= k0 < count,
                    flow.created <= k0,
                    !s[k0] && (forall|i: int| 0 <= i < k0 ==> s[i]),
                    requests@.len() == k0 + 1 + (k0 - flow.created),
                    forall|i: int|
                        0 <= i <= k0 ==> requests@[i] == (HwRequest::CreateTrigger {
                            core: i as usize,
                            addr,
                        }),
                    forall|p: int|
                        k0 + 1 <= p < requests@.len() ==> #[trigger] requests@[p]
                            == (HwRequest::RemoveTrigger { core: (2 * k0 - p) as usize, addr }),
                decreases flow.created,
            {
                match flow.next_request() {
                    Some(req) => requests.push(req),
                    None => {
                        proof {
                            assert(false);
                        }
                    },
                }
                flow.on_removed();
            }
        }
        let result = self.finish_insert(flow);
        InsertRun { result, requests }
    }

    /// Remove the breakpoint at an address. A never-inserted address is "not
    /// found", not an error. Otherwise the entry leaves the map at once — it
    /// never retains handles it can no longer act on — and the returned
    /// report carries every per-core trigger the caller must remove on the
    /// hardware, continuing through individual failures.
    pub fn remove(&mut self, addr: u32) -> (r: RemoveReport)
        requires
            old(self).wf(),
        ensures
            final(self).wf(),
            final(self).core_count == old(self).core_count,
            r.found <==> contains_addr(old(self).entries@, addr),
            !contains_addr(final(self).entries@, addr),
            !r.found ==> final(self).entries@ == old(self).entries@ && r.to_remove@.len() == 0,
            r.found ==> r.to_remove@.len() == old(self).core_count && forall|t: int|
                0 <= t < r.to_remove@.len() ==> r.to_remove@[t] == (TriggerHandle {
                    core: t as usize,
                    addr,
                }),
            r.found ==> final(self).entries@.len() + 1 == old(self).entries@.len(),
            forall|a: u32|
                a != addr ==> (contains_addr(final(self).entries@, a) <==> contains_addr(
                    old(self).entries@,
                    a,
                )),
    {
        let found = self.find(addr);
        match found {
            None => {
                proof {
                    assert(!contains_addr(self.entries@, addr));
                }
                RemoveReport { found: false, to_remove: Vec::new() }
            },
            Some(index) => {
                let ghost before = self.entries@;
                let entry = self.entries.remove(index);
                proof {
                    let after = self.entries@;
                    assert(after == before.subrange(0, index as int) + before.subrange(
                        before.len() as int - (before.len() - index - 1) as int,
                        before.len() as int,
                    ));
                    assert forall|a: u32| contains_addr(after, a) implies contains_addr(
                        before,
                        a,
                    ) by {
                        let i = choose|i: int| 0 <= i < after.len() && after[i].addr == a;
                        if i < index {
                            assert(before[i].addr == a);
                        } else {
                            assert(before[i + 1].addr == a);
                        }
                    }
                    assert(!contains_addr(after, addr)) by {
                        if contains_addr(after, addr) {
                            let i = choose|i: int| 0 <= i < after.len() && after[i].addr == addr;
                            if i < index {
                                assert(before[i].addr == addr);
                                assert(before[index as int].addr == addr);
                            } else {
                                assert(before[i + 1].addr == addr);
                                assert(before[index as int].addr == addr);
                            }
                        }
                    }
                    assert forall|a: u32| a != addr && contains_addr(before, a) implies
                        contains_addr(after, a) by {
                        let i = choose|i: int| 0 <= i < before.len() && before[i].addr == a;
                        if i < index {
                            assert(after[i].addr == a);
                        } else {
                            assert(i != index);
                            assert(after[i - 1].addr == a);
                        }
                    }
                }
                RemoveReport { found: true, to_remove: entry.triggers }
            },
        }
    }
}

/// The record of one insertion run: the protocol answer and every hardware
/// request it issued, in order.
#[derive(Debug, PartialEq, Eq)]
pub struct InsertRun {
    pub result: Result<bool, TricoreTargetError>,
    pub requests: Vec<HwRequest>,
}

/// What one removal reports: whether the address was installed at all, and
/// the trigger handles the hardware must now drop.
#[derive(Debug, Clone, PartialEq, Eq)]
pub struct RemoveReport {
    pub found: bool,
    pub to_remove: Vec<TriggerHandle>,
}

/// Fold a removal back into the protocol answer: a never-inserted address
/// is reported "not found" without error, a clean removal succeeds, and any
/// per-core removal failure is surfaced after every core was still tried.
pub fn remove_outcome(addr: u32, found: bool, failed_removals: usize) -> (r: Result<
    bool,
    TricoreTargetError,
>)
    ensures
        !found ==> r == Ok::<bool, TricoreTargetError>(false),
        found && failed_removals == 0 ==> r == Ok::<bool, TricoreTargetError>(true),
        found && failed_removals > 0 ==> r == Err::<bool, TricoreTargetError>(
            TricoreTargetError::BreakpointOperationFailure(addr),
        ),
{
    if !found {
        Ok(false)
    } else if failed_removals == 0 {
        Ok(true)
    } else {
        Err(TricoreTargetError::BreakpointOperationFailure(addr))
    }
}

/// Where one in-flight installation stands.
#[derive(Debug, Clone, Copy, PartialEq, Eq, Structural)]
pub enum InsertStatus {
    /// The address was installed before the flow began; nothing to do.
    AlreadyInstalled,
    /// The next core still needs its trigger created and downloaded.
    Creating,
    /// Creation failed on `failed_core`; the triggers already created on the
    /// cores before it are being rolled back, last core first.
    Failed { failed_core: usize },
    /// Every core holds its trigger.
    Installed,
}

/// One installation in flight. The flow hands out hardware requests one at
/// a time and advances on each outcome; `created` counts the cores, from
/// core 0 upward, that currently hold a live trigger for the address.
#[derive(Debug, Clone, Copy, PartialEq, Eq, Structural)]
pub struct InsertFlow {
    pub addr: u32,
    pub core_count: usize,
    pub created: usize,
    pub status: InsertStatus,
}

impl InsertFlow {
    pub open spec fn wf(&self) -> bool {
        &&& 1 <= self.core_count <= MAX_CORES
        &&& self.created <= self.core_count
        &&& match self.status {
            InsertStatus::AlreadyInstalled => self.created == 0,
            InsertStatus::Creating => self.created < self.core_count,
            InsertStatus::Failed { failed_core } => self.created <= failed_core
                < self.core_count,
            InsertStatus::Installed => self.created == self.core_count,
        }
    }

    /// A finished flow asks for no further hardware work; a failed flow is
    /// finished only once every created trigger has been rolled back.
    pub open spec fn is_finished(&self) -> bool {
        match self.status {
            InsertStatus::AlreadyInstalled => true,
            InsertStatus::Creating => false,
            InsertStatus::Failed { .. } => self.created == 0,
            InsertStatus::Installed => true,
        }
    }

    /// The next hardware request, or nothing once the flow is finished.
    pub fn next_request(&self) -> (r: Option<HwRequest>)
        requires
            self.wf(),
        ensures
            r is None <==> self.is_finished(),
            self.status == InsertStatus::Creating ==> r == Some(
                HwRequest::CreateTrigger { core: self.created, addr: self.addr },
            ),
            (self.status matches InsertStatus::Failed { .. } && self.created > 0) ==> r == Some(
                HwRequest::RemoveTrigger { core: (self.created - 1) as usize, addr: self.addr },
            ),
    {
        match self.status {
            InsertStatus::AlreadyInstalled => None,
            InsertStatus::Installed => None,
            InsertStatus::Creating => Some(
                HwRequest::CreateTrigger { core: self.created, addr: self.addr },
            ),
            InsertStatus::Failed { .. } => {
                if self.created > 0 {
                    Some(HwRequest::RemoveTrigger { core: self.created - 1, addr: self.addr })
                } else {
                    None
                }
            },
        }
    }

    /// Advance on the outcome of the pending trigger creation. Success moves
    /// on to the next core, or finishes once every core holds its trigger;
    /// the first failure turns the flow around: every trigger created so far
    /// must now be rolled back before the flow may finish.
    pub fn on_created(&mut self, ok: bool)
        requires
            old(self).wf(),
            old(self).status == InsertStatus::Creating,
        ensures
            final(self).wf(),
            final(self).addr == old(self).addr,
            final(self).core_count == old(self).core_count,
            ok && old(self).created + 1 < old(self).core_count ==> final(self).status
                == InsertStatus::Creating && final(self).created == old(self).created + 1,
            ok && old(self).created + 1 == old(self).core_count ==> final(self).status
                == InsertStatus::Installed && final(self).created == old(self).core_count,
            !ok ==> final(self).status == (InsertStatus::Failed { failed_core: old(self).created })
                && final(self).created == old(self).created,
    {
        if ok {
            self.created = self.created + 1;
            if self.created == self.core_count {
                self.status = InsertStatus::Installed;
            }
        } else {
            self.status = InsertStatus::Failed { failed_core: self.created };
        }
    }

    /// Advance past one rollback removal. The removal was attempted whatever
    /// its outcome: a failing removal is surfaced by the overall failure and
    /// must not stop the remaining cores from being tried.
    pub fn on_removed(&mut self)
        requires
            old(self).wf(),
            old(self).status matches InsertStatus::Failed { .. },
            old(self).created > 0,
        ensures
            final(self).wf(),
            final(self).addr == old(self).addr,
            final(self).core_count == old(self).core_count,
            final(self).status == old(self).status,
            final(self).created == old(self).created - 1,
    {
        self.created = self.created - 1;
    }
}

} // verus!
