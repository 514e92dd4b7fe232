use vstd::prelude::*;
use crate::models::TrainAnnouncement;

verus! {

/// Announcements in ascending advertised time.
pub open spec fn sorted_by_time(announcements: Seq<TrainAnnouncement>) -> bool {
    forall|i: int, j: int|
        0 <= i < j < announcements.len() ==> (#[trigger] announcements[i]).advertised_time_at_location.unix_seconds
            <= (#[trigger] announcements[j]).advertised_time_at_location.unix_seconds
}

/// Orders announcements by ascending advertised time.
pub fn sort_by_advertised_time(announcements: Vec<TrainAnnouncement>) -> (r: Vec<
    TrainAnnouncement,
>)
    ensures
        r@.to_multiset() == announcements@.to_multiset(),
        sorted_by_time(r@),
{
    broadcast use vstd::seq_lib::group_to_multiset_ensures, vstd::multiset::group_multiset_axioms;

    let ghost given = announcements@;
    let mut rest = announcements;
    let mut r: Vec<TrainAnnouncement> = Vec::new();
    assert(r@.to_multiset().add(rest@.to_multiset()) =~= given.to_multiset());
    while rest.len() > 0
        invariant
            r@.to_multiset().add(rest@.to_multiset()) == given.to_multiset(),
            sorted_by_time(r@),
        decreases rest.len(),
    {
        let ghost before = rest@;
        let next = rest.remove(0);
        assert(before.remove(0) == rest@);
        let time: i64 = next.advertised_time_at_location.unix_seconds;
        let mut j: usize = 0;
        while j < r.len() && r[j].advertised_time_at_location.unix_seconds <= time
            invariant
                0 <= j <= r@.len(),
                forall|k: int| 0 <= k < j ==> (#[trigger] r@[k]).advertised_time_at_location.unix_seconds
                    <= time,
            decreases r@.len() - j,
        {
            j = j + 1;
        }
        let ghost sorted = r@;
        r.insert(j, next);
        proof {
            vstd::seq_lib::to_multiset_contains(before, next);
            vstd::seq_lib::to_multiset_remove(before, 0);
            vstd::seq_lib::to_multiset_insert(sorted, j as int, next);
        }
        assert(r@ == sorted.insert(j as int, next));
        assert(r@.to_multiset().add(rest@.to_multiset()) =~= sorted.to_multiset().add(
            before.to_multiset(),
        ));
        assert(sorted_by_time(r@)) by {
            assert forall|a: int, b: int| 0 <= a < b < r@.len() implies (#[trigger] r@[a]).advertised_time_at_location.unix_seconds
                <= (#[trigger] r@[b]).advertised_time_at_location.unix_seconds by {
                if j < sorted.len() {
                    assert(sorted[j as int].advertised_time_at_location.unix_seconds > time);
                }
            }
        }
    }
    assert(r@.to_multiset().add(rest@.to_multiset()) =~= r@.to_multiset());
    r
}

} // verus!
