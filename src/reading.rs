//! Putting the values of a group reading back in the order of the group's
//! counters.
use vstd::prelude::*;
use crate::error::CounterError;

verus! {

/// The value that `entries` holds for the counter `id`: that of the first
/// entry labelled `id`.
pub open spec fn value_for(id: u64, entries: Seq<(u64, u64)>) -> Option<u64>
    decreases entries.len(),
{
    if entries.len() == 0 {
        None
    } else if entries[0].0 == id {
        Some(entries[0].1)
    } else {
        value_for(id, entries.drop_first())
    }
}

/// Whether `entries` holds a value for every counter of `ids`.
pub open spec fn covers(ids: Seq<u64>, entries: Seq<(u64, u64)>) -> bool {
    forall|i: int| 0 <= i < ids.len() ==> (#[trigger] value_for(ids[i], entries)) is Some
}

/// The values of `entries`, one for each counter of `ids`, in the order of
/// `ids`; meaningful where `covers(ids, entries)`.
pub open spec fn reading_of(ids: Seq<u64>, entries: Seq<(u64, u64)>) -> Seq<u64> {
    Seq::new(ids.len(), |i: int| value_for(ids[i], entries)->0)
}

/// A reading that covers its counters has exactly one value per counter, and
/// the value at each position is the one labelled with that position's
/// counter, whatever the order of the entries.
pub proof fn reading_in_counter_order(ids: Seq<u64>, entries: Seq<(u64, u64)>)
    requires
        covers(ids, entries),
    ensures
        reading_of(ids, entries).len() == ids.len(),
        forall|i: int| 0 <= i < ids.len() ==>
            value_for(ids[i], entries) == Some(#[trigger] reading_of(ids, entries)[i]),
{
    assert forall|i: int| 0 <= i < ids.len() implies
        value_for(ids[i], entries) == Some(#[trigger] reading_of(ids, entries)[i]) by {
        assert(value_for(ids[i], entries) is Some);
    }
}

/// No two entries of a reading carry the same counter identifier, as the
/// kernel labels each member of a group with its own.
pub open spec fn distinct_ids(entries: Seq<(u64, u64)>) -> bool {
    forall|i: int, j: int|
        0 <= i < j < entries.len() ==> (#[trigger] entries[i]).0 != (#[trigger] entries[j]).0
}

proof fn value_for_is_membership(id: u64, v: u64, entries: Seq<(u64, u64)>)
    requires
        distinct_ids(entries),
    ensures
        value_for(id, entries) == Some(v) <==> entries.contains((id, v)),
    decreases entries.len(),
{
    if entries.len() > 0 {
        let rest = entries.drop_first();
        assert(distinct_ids(rest)) by {
            assert forall|i: int, j: int| 0 <= i < j < rest.len() implies
                (#[trigger] rest[i]).0 != (#[trigger] rest[j]).0 by {
                assert(rest[i] == entries[i + 1] && rest[j] == entries[j + 1]);
            }
        }
        value_for_is_membership(id, v, rest);
        if entries[0].0 == id {
            if entries.contains((id, v)) {
                let k = choose|k: int| 0 <= k < entries.len() && entries[k] == (id, v);
                if k > 0 {
                    assert(entries[0].0 != entries[k].0);
                }
            }
        } else {
            if entries.contains((id, v)) {
                let k = choose|k: int| 0 <= k < entries.len() && entries[k] == (id, v);
                assert(rest[k - 1] == entries[k]);
            }
            if rest.contains((id, v)) {
                let k = choose|k: int| 0 <= k < rest.len() && rest[k] == (id, v);
                assert(entries[k + 1] == rest[k]);
            }
        }
    }
}

/// A reading does not depend on the order in which the kernel lists the
/// entries: two listings of the same entries, each counter labelled once,
/// give the same values for the same counters.
pub proof fn reading_ignores_entry_order(ids: Seq<u64>, first: Seq<(u64, u64)>, second: Seq<(u64, u64)>)
    requires
        distinct_ids(first),
        distinct_ids(second),
        first.to_multiset() =~= second.to_multiset(),
    ensures
        covers(ids, first) == covers(ids, second),
        reading_of(ids, first) == reading_of(ids, second),
{
    broadcast use vstd::seq_lib::group_to_multiset_ensures;
    assert forall|id: u64| value_for(id, first) == value_for(id, second) by {
        if value_for(id, first) is Some {
            let v = value_for(id, first)->0;
            value_for_is_membership(id, v, first);
            value_for_is_membership(id, v, second);
            assert(first.to_multiset().count((id, v)) > 0);
        }
        if value_for(id, second) is Some {
            let w = value_for(id, second)->0;
            value_for_is_membership(id, w, first);
            value_for_is_membership(id, w, second);
            assert(second.to_multiset().count((id, w)) > 0);
        }
    }
    assert(reading_of(ids, first) =~= reading_of(ids, second));
}

/// Finds the value that `entries` holds for the counter `id`.
pub fn find_value(id: u64, entries: &Vec<(u64, u64)>) -> (r: Option<u64>)
    ensures
        r == value_for(id, entries@),
{
    let mut i: usize = 0;
    assert(entries@.subrange(0, entries.len() as int) =~= entries@);
    while i < entries.len()
        invariant
            i <= entries.len(),
            value_for(id, entries@) == value_for(id, entries@.subrange(i as int, entries.len() as int)),
        decreases entries.len() - i,
    {
        let ghost rest = entries@.subrange(i as int, entries.len() as int);
        assert(rest.drop_first() =~= entries@.subrange(i + 1, entries.len() as int));
        if entries[i].0 == id {
            return Some(entries[i].1);
        }
        i = i + 1;
    }
    assert(entries@.subrange(i as int, entries.len() as int).len() == 0);
    None
}

/// Re-orders a group reading: the value of each counter of `ids`, in the
/// order of `ids`, whatever the order of `entries`. A counter without a value
/// is an internal inconsistency of the group, never read as zero.
pub fn project_reading(ids: &Vec<u64>, entries: &Vec<(u64, u64)>) -> (r: Result<Vec<u64>, CounterError>)
    ensures
        covers(ids@, entries@) ==> r is Ok && r->Ok_0@ == reading_of(ids@, entries@),
        !covers(ids@, entries@) ==> r == Err::<Vec<u64>, CounterError>(CounterError::InternalInconsistency),
{
    let mut values: Vec<u64> = Vec::new();
    let mut i: usize = 0;
    while i < ids.len()
        invariant
            i <= ids.len(),
            values@.len() == i,
            forall|k: int| 0 <= k < i ==> (#[trigger] value_for(ids@[k], entries@)) == Some(values@[k]),
        decreases ids.len() - i,
    {
        match find_value(ids[i], entries) {
            Some(v) => values.push(v),
            None => {
                assert(!covers(ids@, entries@));
                return Err(CounterError::InternalInconsistency);
            },
        }
        i = i + 1;
    }
    assert(values@ =~= reading_of(ids@, entries@));
    Ok(values)
}

} // verus!
