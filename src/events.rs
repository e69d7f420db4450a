//! The events that a counter can count.
use vstd::prelude::*;

verus! {

/// The outcome of a cache access that a cache event counts.
#[allow(non_camel_case_types)]
#[derive(Clone, Copy, Debug, PartialEq, Eq, Structural)]
pub enum CacheResult {
    ACCESS,
    MISS,
}

/// The cache that a cache event observes.
#[allow(non_camel_case_types)]
#[derive(Clone, Copy, Debug, PartialEq, Eq, Structural)]
pub enum CacheId {
    /// Level 1 data cache.
    L1D,
    /// Level 1 instruction cache.
    L1I,
    /// Last level cache.
    LL,
    /// Data translation lookaside buffer.
    DTLB,
    /// Instruction translation lookaside buffer.
    ITLB,
    /// Branch prediction unit.
    BPU,
    /// Memory accesses that stay local to the originating NUMA node.
    NODE,
}

/// The kind of access that a cache event counts.
#[allow(non_camel_case_types)]
#[derive(Clone, Copy, Debug, PartialEq, Eq, Structural)]
pub enum CacheOp {
    READ,
    WRITE,
    PREFETCH,
}

/// Read a counter covering caches.
#[derive(Clone, Copy, Debug, PartialEq, Eq, Structural)]
pub struct Cache {
    pub which: CacheId,
    pub operation: CacheOp,
    pub result: CacheResult,
}

impl Cache {
    /// Any combination is accepted here; whether the CPU can count it is
    /// only known when the counter is attached.
    pub fn new(which: CacheId, operation: CacheOp, result: CacheResult) -> (r: Self)
        ensures
            r.which == which,
            r.operation == operation,
            r.result == result,
    {
        Cache { which, operation, result }
    }
}

/// Read an architecturally defined counter from the CPU.
#[allow(non_camel_case_types)]
#[derive(Clone, Copy, Debug, PartialEq, Eq, Structural)]
pub enum Hardware {
    CPU_CYCLES,
    INSTRUCTIONS,
    CACHE_REFERENCES,
    CACHE_MISSES,
    BRANCH_INSTRUCTIONS,
    BRANCH_MISSES,
    BUS_CYCLES,
    STALLED_CYCLES_FRONTEND,
    STALLED_CYCLES_BACKEND,
    REF_CPU_CYCLES,
}

/// A raw, model-specific CPU counter.
#[derive(Clone, Copy, Debug, PartialEq, Eq, Structural)]
pub struct Raw {
    pub config: u64,
}

impl Raw {
    /// Any 64-bit selector is accepted; its meaning is up to the CPU model.
    pub fn new(config: u64) -> (r: Self)
        ensures
            r.config == config,
    {
        Raw { config }
    }
}

/// One event that a group should count.
#[derive(Clone, Copy, Debug, PartialEq, Eq, Structural)]
pub enum EventSpec {
    Hardware(Hardware),
    Cache(Cache),
    Raw(Raw),
}

} // verus!
