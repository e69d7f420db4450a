//! Counting the events of one unit of work.
use vstd::prelude::*;
use crate::error::{is_attach_error, CounterError};
use crate::events::EventSpec;
use crate::group::{reading_for, CounterGroup};

verus! {

/// Why a measurement failed: the counters, or the unit of work itself.
#[derive(Debug, PartialEq, Eq)]
pub enum MeasureError<E> {
    Counter(CounterError),
    Work(E),
}

/// Enables `group`, runs `work` once, disables the group whatever `work`
/// returned, and then reads it.
///
/// A failure of `work` is what is reported, even where disabling failed
/// too. Only where it succeeded is the group read.
pub fn measure_group<E, F>(group: &mut CounterGroup, work: F) -> (r: Result<Vec<u64>, MeasureError<E>>)
    where
        F: FnOnce() -> Result<(), E>,
    requires
        old(group).wf(),
        work.requires(()),
    ensures
        final(group).wf(),
        final(group).events() == old(group).events(),
        final(group).members() == old(group).members(),
        final(group).counter_ids() == old(group).counter_ids(),
        final(group).start_requests() == old(group).start_requests() + 1,
        final(group).stop_requests() == old(group).stop_requests()
            || final(group).stop_requests() == old(group).stop_requests() + 1,
        final(group).stop_requests() == old(group).stop_requests() ==> r is Err && r->Err_0 is Counter
            && final(group).is_enabled() == old(group).is_enabled(),
        r is Err && r->Err_0 is Counter && final(group).stop_requests() == old(group).stop_requests() + 1
            ==> work.ensures((), Ok(())),
        r is Ok ==> work.ensures((), Ok(())),
        r is Ok ==> r->Ok_0@.len() == old(group).events().len(),
        r is Ok ==> reading_for(old(group).events(), old(group).members(), r->Ok_0@),
        r is Ok ==> !final(group).is_enabled(),
        r is Err && r->Err_0 is Work ==> work.ensures((), Err(r->Err_0->Work_0)),
        r is Err && r->Err_0 is Counter ==> r->Err_0->Counter_0 is OperationFailed
            || r->Err_0->Counter_0 == CounterError::InternalInconsistency,
        final(group).is_enabled() ==> r is Err,
        r is Ok || r->Err_0 is Work ==> final(group).stop_requests() == old(group).stop_requests() + 1,
{
    let was_enabled = group.enable();
    if let Err(e) = was_enabled {
        return Err(MeasureError::Counter(e));
    }
    let outcome = work();
    assert(work.ensures((), outcome));
    assert(outcome is Ok ==> outcome == Ok::<(), E>(()));
    let stopped = group.disable();
    match outcome {
        Err(e) => Err(MeasureError::Work(e)),
        Ok(_finished) => match stopped {
            Err(e) => Err(MeasureError::Counter(e)),
            Ok(()) => match group.read() {
                Ok(values) => Ok(values),
                Err(e) => Err(MeasureError::Counter(e)),
            },
        },
    }
}

/// Measures the events `specs` over one run of `work`: builds a group,
/// measures it with `measure_group`, and releases it on every path.
pub fn measure<E, F>(specs: &[EventSpec], work: F) -> (r: Result<Vec<u64>, MeasureError<E>>)
    where
        F: FnOnce() -> Result<(), E>,
    requires
        specs@.len() < 4294967295,
        work.requires(()),
    ensures
        specs@.len() == 0 <==> (r is Err && r->Err_0 == MeasureError::<E>::Counter(CounterError::EmptyGroup)),
        r is Ok ==> work.ensures((), Ok(())),
        r is Ok ==> r->Ok_0@.len() == specs@.len(),
        r is Ok ==> exists|members: Seq<(EventSpec, u64)>| #[trigger] reading_for(specs@, members, r->Ok_0@),
        r is Err && r->Err_0 is Work ==> work.ensures((), Err(r->Err_0->Work_0)),
        r is Err && r->Err_0 is Counter ==> r->Err_0->Counter_0 == CounterError::EmptyGroup
            || is_attach_error(r->Err_0->Counter_0)
            || r->Err_0->Counter_0 is OperationFailed
            || r->Err_0->Counter_0 == CounterError::InternalInconsistency,
{
    let mut group = match CounterGroup::new(specs) {
        Ok(g) => g,
        Err(e) => return Err(MeasureError::Counter(e)),
    };
    let r = measure_group(&mut group, work);
    group.close();
    r
}

} // verus!
