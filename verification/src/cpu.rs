use vstd::prelude::*;

verus! {

/// Identifier of one physical core of the chip, as the coordinator and the
/// debugger both address it.
#[derive(Debug, Clone, Copy, PartialEq, Eq, Structural)]
pub enum CpuId {
    Cpu0,
    Cpu1,
    Cpu2,
    Cpu3,
    Cpu4,
    Cpu5,
}

/// The largest core count the thread-id mapping supports.
pub const MAX_CORES: usize = 6;

/// The 0-based core index that a core identifier stands for.
pub open spec fn cpu_index(id: CpuId) -> int {
    match id {
        CpuId::Cpu0 => 0,
        CpuId::Cpu1 => 1,
        CpuId::Cpu2 => 2,
        CpuId::Cpu3 => 3,
        CpuId::Cpu4 => 4,
        CpuId::Cpu5 => 5,
    }
}

/// The core identifier for a 0-based core index.
pub open spec fn cpu_of(i: int) -> CpuId {
    if i == 0 {
        CpuId::Cpu0
    } else if i == 1 {
        CpuId::Cpu1
    } else if i == 2 {
        CpuId::Cpu2
    } else if i == 3 {
        CpuId::Cpu3
    } else if i == 4 {
        CpuId::Cpu4
    } else {
        CpuId::Cpu5
    }
}

impl CpuId {
    /// The 0-based core index behind this identifier.
    pub fn index(&self) -> (r: usize)
        ensures
            r == cpu_index(*self),
            r < MAX_CORES,
    {
        match self {
            CpuId::Cpu0 => 0,
            CpuId::Cpu1 => 1,
            CpuId::Cpu2 => 2,
            CpuId::Cpu3 => 3,
            CpuId::Cpu4 => 4,
            CpuId::Cpu5 => 5,
        }
    }

    /// A 0-based core index to its identifier; an index beyond the last core
    /// slot is rejected, never clamped.
    pub fn try_from(index: usize) -> (r: Result<CpuId, &'static str>)
        ensures
            r is Ok <==> index < MAX_CORES,
            r matches Ok(id) ==> cpu_index(id) == index,
    {
        match index {
            0 => Ok(CpuId::Cpu0),
            1 => Ok(CpuId::Cpu1),
            2 => Ok(CpuId::Cpu2),
            3 => Ok(CpuId::Cpu3),
            4 => Ok(CpuId::Cpu4),
            5 => Ok(CpuId::Cpu5),
            _ => Err("Index out of bounds for CpuId"),
        }
    }
}

/// The externally visible, 1-based thread id for a core identifier.
pub fn cpuid_to_tid(id: CpuId) -> (r: usize)
    ensures
        r == cpu_index(id) + 1,
        1 <= r <= MAX_CORES,
{
    id.index() + 1
}

/// A thread id back to the core identifier; an id outside the advertised
/// range is rejected, never clamped.
pub fn tid_to_cpuid(tid: usize) -> (r: Result<CpuId, &'static str>)
    ensures
        r is Ok <==> 1 <= tid <= MAX_CORES,
        r matches Ok(id) ==> cpu_index(id) + 1 == tid,
{
    if tid == 0 {
        Err("specified invalid core")
    } else {
        CpuId::try_from(tid - 1)
    }
}

} // verus!
