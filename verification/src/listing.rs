//! What a list of tasks shows under a filter and a search.

use crate::model::{has_distinct_ids, is_ordered, is_selection, TodoView};
use crate::text::{lowercase, to_lowercase};
use crate::todo::{views, Filter, Todo};
use vstd::prelude::*;

verus! {

/// One of the first `n` tasks of `list` has the id `id`.
spec fn among_first(list: Seq<TodoView>, n: int, id: nat) -> bool {
    exists|k: int| 0 <= k < n && k < list.len() && (#[trigger] list[k]).id == id
}

/// Puts `todo` into the ordered `list` at the place where it belongs, which a
/// binary search finds.
fn insert_ordered<'a>(list: &mut Vec<&'a Todo>, todo: &'a Todo)
    requires
        is_ordered(views(old(list)@)),
        forall|i: int| 0 <= i < old(list).len() ==> (#[trigger] old(list)[i])@.id != todo@.id,
        old(list).len() < usize::MAX,
    ensures
        is_ordered(views(final(list)@)),
        exists|at: int|
            0 <= at <= old(list).len() && final(list)@ == #[trigger] old(list)@.insert(at, todo),
{
    let mut low: usize = 0;
    let mut high: usize = list.len();
    while low < high
        invariant
            low <= high <= list.len(),
            list@ == old(list)@,
            is_ordered(views(list@)),
            forall|i: int| 0 <= i < list.len() ==> (#[trigger] list[i])@.id != todo@.id,
            forall|i: int| 0 <= i < low ==> (#[trigger] list[i])@.precedes(todo@),
            forall|i: int| high <= i < list.len() ==> todo@.precedes((#[trigger] list[i])@),
        decreases high - low,
    {
        let middle: usize = low + (high - low) / 2;
        if list[middle].precedes(todo) {
            assert forall|i: int| 0 <= i < middle + 1 implies (#[trigger] list[i])@.precedes(
                todo@,
            ) by {
                if i < middle {
                    assert(views(list@)[i].precedes(views(list@)[middle as int]));
                }
            }
            low = middle + 1;
        } else {
            assert forall|i: int| middle <= i < list.len() implies todo@.precedes(
                (#[trigger] list[i])@,
            ) by {
                if middle < i {
                    assert(views(list@)[middle as int].precedes(views(list@)[i]));
                }
            }
            high = middle;
        }
    }
    list.insert(low, todo);
    proof {
        let before = views(old(list)@);
        let after = views(list@);
        assert forall|i: int, j: int|
            #![trigger after[i], after[j]]
            0 <= i < j < after.len() implies after[i].precedes(after[j]) by {
            if j < low {
                assert(before[i].precedes(before[j]));
            } else if low < i {
                assert(before[i - 1].precedes(before[j - 1]));
            }
        }
    }
}

/// The tasks of `all` to show under `filter` and the search for `query`: those
/// that the filter lets through and the search finds, the newest first; of two
/// created at the same instant, the one with the larger id first. No two tasks
/// of `all` may share an id.
pub fn select<'a>(all: &[&'a Todo], filter: Filter, query: &str) -> (r: Vec<&'a Todo>)
    requires
        has_distinct_ids(views(all@)),
    ensures
        is_selection(views(all@), filter, query@, views(r@)),
{
    let needle: Option<String> = if query.is_empty() {
        None
    } else {
        Some(to_lowercase(query))
    };
    let mut shown: Vec<&Todo> = Vec::new();
    let mut i: usize = 0;
    while i < all.len()
        invariant
            i <= all.len(),
            has_distinct_ids(views(all@)),
            match needle {
                Some(text) => query@.len() > 0 && text@ == lowercase(query@),
                None => query@.len() == 0,
            },
            shown.len() <= i,
            is_ordered(views(shown@)),
            forall|j: int|
                0 <= j < shown.len() ==> {
                    &&& views(all@).contains((#[trigger] shown[j])@)
                    &&& shown[j]@.passes(filter)
                    &&& shown[j]@.matches(query@)
                    &&& among_first(views(all@), i as int, shown[j]@.id)
                },
            forall|k: int|
                0 <= k < i && (#[trigger] all[k])@.passes(filter) && all[k]@.matches(query@)
                    ==> views(shown@).contains(all[k]@),
        decreases all.len() - i,
    {
        let todo = all[i];
        let ghost before = shown@;
        let found = todo.passes(filter) && match &needle {
            Some(text) => todo.mentions(text.as_str()),
            None => true,
        };
        if found {
            proof {
                assert forall|j: int| 0 <= j < shown.len() implies (#[trigger] shown[j])@.id
                    != todo@.id by {
                    let k = choose|k: int|
                        0 <= k < i && k < views(all@).len() && (#[trigger] views(all@)[k]).id
                            == shown[j]@.id;
                    assert(views(all@)[k].id != views(all@)[i as int].id);
                }
            }
            insert_ordered(&mut shown, todo);
            proof {
                let at = choose|at: int|
                    0 <= at <= before.len() && shown@ == #[trigger] before.insert(at, todo);
                assert(views(all@)[i as int] == todo@);
                assert forall|k: int|
                    0 <= k < i + 1 && (#[trigger] all[k])@.passes(filter) && all[k]@.matches(
                        query@,
                    ) implies views(shown@).contains(all[k]@) by {
                    if k < i {
                        let j = choose|j: int|
                            0 <= j < views(before).len() && views(before)[j] == all[k]@;
                        if j < at {
                            assert(views(shown@)[j] == all[k]@);
                        } else {
                            assert(views(shown@)[j + 1] == all[k]@);
                        }
                    } else {
                        assert(views(shown@)[at] == all[k]@);
                    }
                }
            }
        } else {
            proof {
            }
        }
        i = i + 1;
    }
    proof {
        let list = views(shown@);
    }
    shown
}

} // verus!
