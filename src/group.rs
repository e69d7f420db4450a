//! A group of counters that the kernel enables, disables and reads as one.
use vstd::prelude::*;
use perf_event::{Counter, Group};
use crate::error::{attach_error_of, classify_attach_error, is_attach_error, CounterError};
use crate::events::EventSpec;
use crate::perf::{attach_cache, attach_hardware, attach_raw, members_of, read_entries};
use crate::reading::{covers, project_reading, reading_of};

verus! {

/// The identifiers of the counters `members`, in the same order.
pub open spec fn member_ids(members: Seq<(EventSpec, u64)>) -> Seq<u64> {
    members.map_values(|m: (EventSpec, u64)| m.1)
}

/// `values` is a reading of the counters `members`, attached for `specs`
/// one each and in order: the value at each position is the one that the
/// kernel labelled with the identifier of the counter for that position's
/// event.
pub open spec fn reading_for(specs: Seq<EventSpec>, members: Seq<(EventSpec, u64)>, values: Seq<u64>) -> bool {
    &&& members.len() == specs.len()
    &&& forall|i: int| 0 <= i < specs.len() ==> (#[trigger] members[i]).0 == specs[i]
    &&& exists|entries: Seq<(u64, u64)>|
        covers(member_ids(members), entries) && #[trigger] reading_of(member_ids(members), entries) == values
}

/// A kernel counter group with one counter per event, in the order in which
/// the events were given.
///
/// Enabling or disabling a group that already is so asks the kernel again,
/// which leaves the counters as they are: both are idempotent. Dropping the
/// group, or `close`, releases the group and all its counters.
pub struct CounterGroup {
    group: Group,
    specs: Vec<EventSpec>,
    counters: Vec<Counter>,
    ids: Vec<u64>,
    enabled: bool,
    starts: Ghost<nat>,
    stops: Ghost<nat>,
}

impl CounterGroup {
    /// The events counted, in the order given at construction.
    pub closed spec fn events(&self) -> Seq<EventSpec> {
        self.specs@
    }

    /// The kernel's identifiers of the counters, in the same order.
    pub closed spec fn counter_ids(&self) -> Seq<u64> {
        self.ids@
    }

    /// Whether the last successful enable or disable was an enable.
    pub closed spec fn is_enabled(&self) -> bool {
        self.enabled
    }

    /// How many times the group was asked to start counting.
    pub closed spec fn start_requests(&self) -> nat {
        self.starts@
    }

    /// How many times the group was asked to stop counting.
    pub closed spec fn stop_requests(&self) -> nat {
        self.stops@
    }

    /// The counters that the kernel group holds: each one's event and
    /// identifier, in the order in which they joined.
    pub closed spec fn members(&self) -> Seq<(EventSpec, u64)> {
        members_of(self.group)
    }

    /// At least one event; one counter per event; and the kernel group holds
    /// exactly these counters, the one for each event labelled with the
    /// identifier at the same position.
    pub closed spec fn wf(&self) -> bool {
        &&& self.specs@.len() > 0
        &&& self.counters@.len() == self.specs@.len()
        &&& self.ids@.len() == self.specs@.len()
        &&& members_of(self.group).len() == self.specs@.len()
        &&& forall|i: int| 0 <= i < self.specs@.len()
            ==> #[trigger] members_of(self.group)[i] == (self.specs@[i], self.ids@[i])
    }

    /// Opens one kernel group, then attaches one counter for each of `specs`
    /// to it, in order. The first attachment that fails ends the
    /// construction: nothing after it is attached, and what was attached so
    /// far is released with the group.
    pub fn new(specs: &[EventSpec]) -> (r: Result<CounterGroup, CounterError>)
        requires
            specs@.len() < 4294967295,
        ensures
            specs@.len() == 0 <==> (r is Err && r->Err_0 == CounterError::EmptyGroup),
            r is Ok ==> r->Ok_0.wf() && r->Ok_0.events() == specs@ && !r->Ok_0.is_enabled()
                && r->Ok_0.start_requests() == 0 && r->Ok_0.stop_requests() == 0,
            r is Ok ==> r->Ok_0.members().len() == specs@.len()
                && r->Ok_0.counter_ids().len() == specs@.len(),
            r is Ok ==> forall|i: int| 0 <= i < specs@.len()
                ==> #[trigger] r->Ok_0.members()[i] == (specs@[i], r->Ok_0.counter_ids()[i]),
            r is Err ==> r->Err_0 == CounterError::EmptyGroup || is_attach_error(r->Err_0),
    {
        if specs.len() == 0 {
            return Err(CounterError::EmptyGroup);
        }
        let mut group = match Group::new() {
            Ok(g) => g,
            Err(e) => {
                let code = e.raw_os_error();
                let err = classify_attach_error(code);
                assert(attach_error_of(code) == err);
                return Err(err);
            },
        };
        let mut events: Vec<EventSpec> = Vec::new();
        let mut counters: Vec<Counter> = Vec::new();
        let mut ids: Vec<u64> = Vec::new();
        let mut i: usize = 0;
        while i < specs.len()
            invariant
                i <= specs@.len(),
                specs@.len() < 4294967295,
                events@ == specs@.subrange(0, i as int),
                counters@.len() == i,
                ids@.len() == i,
                members_of(group).len() == i,
                forall|k: int| 0 <= k < i ==> #[trigger] members_of(group)[k] == (specs@[k], ids@[k]),
            decreases specs.len() - i,
        {
            let spec = specs[i];
            let attached = match spec {
                EventSpec::Hardware(h) => attach_hardware(&mut group, h, i),
                EventSpec::Cache(c) => attach_cache(&mut group, c, i),
                EventSpec::Raw(raw) => attach_raw(&mut group, raw, i),
            };
            match attached {
                Ok((id, counter)) => {
                    ids.push(id);
                    counters.push(counter);
                },
                Err(e) => {
                    let code = e.raw_os_error();
                    let err = classify_attach_error(code);
                    assert(attach_error_of(code) == err);
                    return Err(err);
                },
            }
            events.push(spec);
            i = i + 1;
            assert(events@ =~= specs@.subrange(0, i as int));
        }
        assert(events@ =~= specs@);
        Ok(CounterGroup { group, specs: events, counters, ids, enabled: false, starts: Ghost(0), stops: Ghost(0) })
    }

    /// The number of counters in the group.
    pub fn len(&self) -> (r: usize)
        requires
            self.wf(),
        ensures
            r == self.events().len(),
    {
        self.specs.len()
    }

    /// Starts all counters of the group at the same instant.
    pub fn enable(&mut self) -> (r: Result<(), CounterError>)
        requires
            old(self).wf(),
        ensures
            final(self).wf(),
            final(self).events() == old(self).events(),
            final(self).counter_ids() == old(self).counter_ids(),
            final(self).members() == old(self).members(),
            final(self).start_requests() == old(self).start_requests() + 1,
            final(self).stop_requests() == old(self).stop_requests(),
            r is Ok ==> final(self).is_enabled(),
            r is Err ==> r->Err_0 is OperationFailed && final(self).is_enabled() == old(self).is_enabled(),
    {
        self.starts = Ghost(self.starts@ + 1);
        match self.group.enable() {
            Ok(()) => {
                self.enabled = true;
                Ok(())
            },
            Err(e) => Err(CounterError::OperationFailed(e.raw_os_error())),
        }
    }

    /// Stops all counters of the group at the same instant; they keep their
    /// values.
    pub fn disable(&mut self) -> (r: Result<(), CounterError>)
        requires
            old(self).wf(),
        ensures
            final(self).wf(),
            final(self).events() == old(self).events(),
            final(self).counter_ids() == old(self).counter_ids(),
            final(self).members() == old(self).members(),
            final(self).start_requests() == old(self).start_requests(),
            final(self).stop_requests() == old(self).stop_requests() + 1,
            r is Ok ==> !final(self).is_enabled(),
            r is Err ==> r->Err_0 is OperationFailed && final(self).is_enabled() == old(self).is_enabled(),
    {
        self.stops = Ghost(self.stops@ + 1);
        match self.group.disable() {
            Ok(()) => {
                self.enabled = false;
                Ok(())
            },
            Err(e) => Err(CounterError::OperationFailed(e.raw_os_error())),
        }
    }

    /// Takes one snapshot of all counters and returns their values in the
    /// order of the group's events.
    pub fn read(&mut self) -> (r: Result<Vec<u64>, CounterError>)
        requires
            old(self).wf(),
        ensures
            final(self).wf(),
            final(self).events() == old(self).events(),
            final(self).counter_ids() == old(self).counter_ids(),
            final(self).members() == old(self).members(),
            final(self).is_enabled() == old(self).is_enabled(),
            final(self).start_requests() == old(self).start_requests(),
            final(self).stop_requests() == old(self).stop_requests(),
            r is Ok ==> r->Ok_0@.len() == old(self).events().len(),
            r is Ok ==> exists|entries: Seq<(u64, u64)>|
                covers(old(self).counter_ids(), entries)
                && #[trigger] reading_of(old(self).counter_ids(), entries) == r->Ok_0@,
            r is Ok ==> reading_for(old(self).events(), old(self).members(), r->Ok_0@),
            r is Err ==> r->Err_0 is OperationFailed || r->Err_0 == CounterError::InternalInconsistency,
    {
        proof {
            assert(member_ids(self.members()) =~= self.ids@);
        }
        match read_entries(&mut self.group) {
            Ok(entries) => {
                let r = project_reading(&self.ids, &entries);
                assert(self.counter_ids() == old(self).counter_ids());
                r
            },
            Err(e) => Err(CounterError::OperationFailed(e.raw_os_error())),
        }
    }

    /// Releases the group and all its counters, enabled or not.
    pub fn close(self) {
    }
}

} // verus!
