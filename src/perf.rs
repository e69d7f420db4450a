//! The kernel's counter service, as the `perf_event` crate offers it, and
//! what this library assumes of each call.
use vstd::prelude::*;
use perf_event::events;
use perf_event::{Builder, Counter, Group};
use crate::events::{Cache, CacheId, CacheOp, CacheResult, EventSpec, Hardware, Raw};

verus! {

#[verifier::external_type_specification]
#[verifier::external_body]
pub struct ExIoError(std::io::Error);

#[verifier::external_type_specification]
#[verifier::external_body]
pub struct ExGroup(perf_event::Group);

#[verifier::external_type_specification]
#[verifier::external_body]
pub struct ExCounter(perf_event::Counter);

/// The counters that the kernel group `g` holds besides its placeholder, in
/// the order in which they joined it: the event each counts, and the
/// kernel's identifier of its counter.
pub uninterp spec fn members_of(g: perf_event::Group) -> Seq<(EventSpec, u64)>;

/// The operating system's error code carried by an I/O error, if any.
pub assume_specification[ std::io::Error::raw_os_error ](e: &std::io::Error) -> Option<i32>;

/// Opens an empty counter group (a disabled placeholder counter that the
/// members join). It fails as `perf_event_open` does.
pub assume_specification[ perf_event::Group::new ]() -> (r: Result<perf_event::Group, std::io::Error>)
    ensures
        r is Ok ==> members_of(r->Ok_0) == Seq::<(EventSpec, u64)>::empty(),
;

/// Starts every counter of the group at once.
pub assume_specification[ perf_event::Group::enable ](group: &mut perf_event::Group) -> (r: Result<(), std::io::Error>)
    ensures
        members_of(*final(group)) == members_of(*old(group)),
;

/// Stops every counter of the group at once.
pub assume_specification[ perf_event::Group::disable ](group: &mut perf_event::Group) -> (r: Result<(), std::io::Error>)
    ensures
        members_of(*final(group)) == members_of(*old(group)),
;

/// Relies on `Group::add` with a `Builder` for the hardware event `h`: opens
/// one counter for it inside `group`, and hands it back with its kernel
/// identifier (`Counter::id`). A failed attempt leaves the group as it was.
/// `Group::add` panics once the group, its placeholder included, holds
/// `u32::MAX` members; `_members` is how many counters it holds already.
#[verifier::external_body]
pub(crate) fn attach_hardware(group: &mut Group, h: Hardware, _members: usize) -> (r: Result<(u64, Counter), std::io::Error>)
    requires
        _members < 4294967294usize,
    ensures
        r is Ok ==> members_of(*final(group)) == members_of(*old(group)).push((EventSpec::Hardware(h), r->Ok_0.0)),
        r is Err ==> members_of(*final(group)) == members_of(*old(group)),
{
    let counter = group.add(&Builder::new(match h {
        Hardware::CPU_CYCLES => events::Hardware::CPU_CYCLES,
        Hardware::INSTRUCTIONS => events::Hardware::INSTRUCTIONS,
        Hardware::CACHE_REFERENCES => events::Hardware::CACHE_REFERENCES,
        Hardware::CACHE_MISSES => events::Hardware::CACHE_MISSES,
        Hardware::BRANCH_INSTRUCTIONS => events::Hardware::BRANCH_INSTRUCTIONS,
        Hardware::BRANCH_MISSES => events::Hardware::BRANCH_MISSES,
        Hardware::BUS_CYCLES => events::Hardware::BUS_CYCLES,
        Hardware::STALLED_CYCLES_FRONTEND => events::Hardware::STALLED_CYCLES_FRONTEND,
        Hardware::STALLED_CYCLES_BACKEND => events::Hardware::STALLED_CYCLES_BACKEND,
        Hardware::REF_CPU_CYCLES => events::Hardware::REF_CPU_CYCLES,
    }))?;
    Ok((counter.id(), counter))
}

/// Relies on `Group::add` with a `Builder` for the cache event `c`, as
/// `attach_hardware` does.
#[verifier::external_body]
pub(crate) fn attach_cache(group: &mut Group, c: Cache, _members: usize) -> (r: Result<(u64, Counter), std::io::Error>)
    requires
        _members < 4294967294usize,
    ensures
        r is Ok ==> members_of(*final(group)) == members_of(*old(group)).push((EventSpec::Cache(c), r->Ok_0.0)),
        r is Err ==> members_of(*final(group)) == members_of(*old(group)),
{
    let which = match c.which {
        CacheId::L1D => events::CacheId::L1D, CacheId::L1I => events::CacheId::L1I,
        CacheId::LL => events::CacheId::LL, CacheId::DTLB => events::CacheId::DTLB,
        CacheId::ITLB => events::CacheId::ITLB, CacheId::BPU => events::CacheId::BPU,
        CacheId::NODE => events::CacheId::NODE,
    };
    let operation = match c.operation {
        CacheOp::READ => events::CacheOp::READ, CacheOp::WRITE => events::CacheOp::WRITE,
        CacheOp::PREFETCH => events::CacheOp::PREFETCH,
    };
    let result = match c.result {
        CacheResult::ACCESS => events::CacheResult::ACCESS, CacheResult::MISS => events::CacheResult::MISS,
    };
    let counter = group.add(&Builder::new(events::Cache { which, operation, result }))?;
    Ok((counter.id(), counter))
}

/// Relies on `Group::add` with a `Builder` for `events::Raw::new(raw.config)`,
/// as `attach_hardware` does.
#[verifier::external_body]
pub(crate) fn attach_raw(group: &mut Group, raw: Raw, _members: usize) -> (r: Result<(u64, Counter), std::io::Error>)
    requires
        _members < 4294967294usize,
    ensures
        r is Ok ==> members_of(*final(group)) == members_of(*old(group)).push((EventSpec::Raw(raw), r->Ok_0.0)),
        r is Err ==> members_of(*final(group)) == members_of(*old(group)),
{
    let counter = group.add(&Builder::new(events::Raw::new(raw.config)))?;
    Ok((counter.id(), counter))
}

/// Relies on `Group::read`: one snapshot of the whole group, as pairs of a
/// counter's kernel identifier and its value, the placeholder left out.
/// `GroupEntry::id` panics only without the `ID` read format, which
/// `Group::new` always sets.
#[verifier::external_body]
pub(crate) fn read_entries(group: &mut Group) -> (r: Result<Vec<(u64, u64)>, std::io::Error>)
    ensures
        members_of(*final(group)) == members_of(*old(group)),
{
    let data = group.read()?;
    let mut entries = Vec::new();
    for entry in data.iter() {
        entries.push((entry.id(), entry.value()));
    }
    Ok(entries)
}

} // verus!
