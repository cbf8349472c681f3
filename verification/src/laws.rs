//! What holds of the to-do list whatever the user does.

use crate::model::{is_ordered, MessageView, SnapshotView, StateView, TodoView};
use crate::text::{
    all_whitespace, lemma_blank_iff_all_whitespace, lemma_trimmed_ends, lowercase, trimmed,
    white_space,
};
use crate::time::Timestamp;
use crate::todo::Filter;
use vstd::prelude::*;

verus! {

/// The list that nobody has touched yet is in a valid state.
pub proof fn lemma_initial_valid()
    ensures
        StateView::initial().valid(),
{
}

/// No message leads out of the valid states.
pub proof fn lemma_step_keeps_valid(s: StateView, m: MessageView, now: Timestamp)
    requires
        s.valid(),
    ensures
        s.step(m, now).valid(),
{
}

/// No sequence of events leads out of the valid states.
pub proof fn lemma_run_keeps_valid(s: StateView, events: Seq<(MessageView, Timestamp)>)
    requires
        s.valid(),
    ensures
        s.run(events).valid(),
    decreases events.len(),
{
    if events.len() > 0 {
        lemma_run_keeps_valid(s, events.drop_last());
        lemma_step_keeps_valid(s.run(events.drop_last()), events.last().0, events.last().1);
    }
}

/// The message deletes or toggles a task that the state does not have, and does
/// not delete the task that is being edited.
pub open spec fn misses(s: StateView, m: MessageView) -> bool {
    match m {
        MessageView::ToggleTodo(id) => !s.tasks.contains_key(id),
        MessageView::DeleteTodo(id) => !s.tasks.contains_key(id) && !(s.editing matches Some(
            (target, _),
        ) && target == id),
        _ => false,
    }
}

/// Deleting or toggling tasks that do not exist changes nothing, however often
/// it is done. Deleting the very id that is being edited is left out: it ends
/// the edit, also where no task has that id.
pub proof fn lemma_absent_ids_change_nothing(s: StateView, events: Seq<(MessageView, Timestamp)>)
    requires
        forall|i: int| 0 <= i < events.len() ==> misses(s, (#[trigger] events[i]).0),
    ensures
        s.run(events) == s,
    decreases events.len(),
{
    if events.len() > 0 {
        lemma_absent_ids_change_nothing(s, events.drop_last());
        if let MessageView::DeleteTodo(id) = events.last().0 {
            assert(s.tasks.remove(id) =~= s.tasks);
        }
    }
}

/// The message deletes or toggles a task that the state does not have.
pub open spec fn names_absent_task(s: StateView, m: MessageView) -> bool {
    match m {
        MessageView::ToggleTodo(id) => !s.tasks.contains_key(id),
        MessageView::DeleteTodo(id) => !s.tasks.contains_key(id),
        _ => false,
    }
}

/// Deleting or toggling tasks that do not exist leaves the tasks, the next id,
/// the filter and the search as they are; an edit in progress goes on or ends.
pub proof fn lemma_absent_ids_keep_tasks(s: StateView, events: Seq<(MessageView, Timestamp)>)
    requires
        forall|i: int| 0 <= i < events.len() ==> names_absent_task(s, (#[trigger] events[i]).0),
    ensures
        s.run(events).tasks == s.tasks,
        s.run(events).next_id == s.next_id,
        s.run(events).filter == s.filter,
        s.run(events).search_query == s.search_query,
        s.run(events).editing == s.editing || s.run(events).editing is None,
    decreases events.len(),
{
    if events.len() > 0 {
        lemma_absent_ids_keep_tasks(s, events.drop_last());
    }
}

/// A message that creates a task gives it the id `next_id`, which no task had,
/// and moves `next_id` on by one. Any other message leaves `next_id` alone and
/// brings no new id.
pub proof fn lemma_fresh_id(s: StateView, m: MessageView, now: Timestamp)
    requires
        s.valid(),
    ensures
        s.creates_task(m) ==> {
            &&& s.step(m, now).next_id == s.next_id + 1
            &&& !s.tasks.contains_key(s.next_id)
            &&& s.step(m, now).tasks.contains_key(s.next_id)
        },
        !s.creates_task(m) ==> s.step(m, now).next_id == s.next_id,
        forall|id: nat| #[trigger]
            s.step(m, now).tasks.contains_key(id) && !s.tasks.contains_key(id) ==> s.creates_task(
                m,
            ) && id == s.next_id,
{
}

/// `next_id` never falls.
pub proof fn lemma_next_id_never_falls(
    s: StateView,
    events: Seq<(MessageView, Timestamp)>,
    n: int,
)
    requires
        0 <= n <= events.len(),
    ensures
        s.run(events.take(n)).next_id <= s.run(events).next_id,
    decreases events.len(),
{
    if n < events.len() {
        let before = events.drop_last();
        lemma_next_id_never_falls(s, before, n);
        assert(before.take(n) =~= events.take(n));
    } else {
        assert(events.take(n) =~= events);
    }
}

/// The id that the event `events[i]` gives out, where it creates a task: the
/// `next_id` of the state that the events before it lead to.
pub open spec fn id_given(s: StateView, events: Seq<(MessageView, Timestamp)>, i: int) -> nat {
    s.run(events.take(i)).next_id
}

/// No id is given out twice: of two events that each create a task, the later
/// one gives out the larger id.
pub proof fn lemma_ids_never_reused(
    s: StateView,
    events: Seq<(MessageView, Timestamp)>,
    i: int,
    j: int,
)
    requires
        0 <= i < j < events.len(),
        s.run(events.take(i)).creates_task(events[i].0),
    ensures
        id_given(s, events, i) < id_given(s, events, j),
{
    let upto = events.take(j);
    lemma_next_id_never_falls(s, upto, i + 1);
    assert(upto.take(i + 1) =~= events.take(i + 1));
    assert(events.take(i + 1).drop_last() =~= events.take(i));
}

/// Submitting a draft that is empty or holds whitespace alone changes nothing:
/// no task is created, and the draft stays open with its text.
pub proof fn lemma_blank_draft_changes_nothing(s: StateView, text: Seq<char>, now: Timestamp)
    requires
        s.editing == Some((0nat, text)),
        all_whitespace(text),
    ensures
        !s.creates_task(MessageView::AddTodo),
        s.step(MessageView::AddTodo, now) == s,
{
    lemma_blank_iff_all_whitespace(text);
}

/// A task that a draft creates has a title: the draft without the whitespace
/// around it, which is not empty and neither starts nor ends with whitespace.
pub proof fn lemma_new_task_has_title(s: StateView, text: Seq<char>, now: Timestamp)
    requires
        s.editing == Some((0nat, text)),
        s.creates_task(MessageView::AddTodo),
    ensures
        ({
            let after = s.step(MessageView::AddTodo, now);
            let title = after.tasks[s.next_id].title;
            &&& after.tasks.contains_key(s.next_id)
            &&& title == trimmed(text)
            &&& title.len() > 0
            &&& !white_space(title[0])
            &&& !white_space(title.last())
        }),
{
    lemma_trimmed_ends(text);
}

/// Finishing an edit always ends it, and finishing the draft of a new task
/// changes no task, whatever the draft holds.
pub proof fn lemma_finish_ends_edit(s: StateView, now: Timestamp)
    ensures
        s.step(MessageView::FinishEditing, now).editing is None,
        s.editing matches Some((target, _)) && target == 0 ==> s.step(
            MessageView::FinishEditing,
            now,
        ).tasks == s.tasks,
        s.editing is None ==> s.step(MessageView::FinishEditing, now).tasks == s.tasks,
{
}

/// A listing holds exactly the tasks of the state that the filter lets through
/// and the search finds: under `Completed` the completed ones, under `Active`
/// those that are not, under `All` either.
pub proof fn lemma_listing_by_filter(s: StateView, list: Seq<TodoView>)
    requires
        s.is_listing(list),
    ensures
        forall|task: TodoView| #[trigger]
            list.contains(task) <==> s.has(task) && task.matches(s.search_query) && match s.filter {
                Filter::All => true,
                Filter::Active => !task.completed,
                Filter::Completed => task.completed,
            },
{
}

/// An empty search finds every task.
pub proof fn lemma_empty_search_finds_all(s: StateView, list: Seq<TodoView>)
    requires
        s.is_listing(list),
        s.search_query.len() == 0,
    ensures
        forall|task: TodoView| #[trigger]
            list.contains(task) <==> s.has(task) && task.passes(s.filter),
{
    lemma_listing_by_filter(s, list);
}

/// The search does not tell upper case from lower case: a query finds a task
/// whenever a query with the same lower-case form finds a task whose title and
/// description have the same lower-case forms.
pub proof fn lemma_search_ignores_case(a: TodoView, p: Seq<char>, b: TodoView, q: Seq<char>)
    requires
        p.len() > 0,
        q.len() > 0,
        lowercase(p) == lowercase(q),
        lowercase(a.title) == lowercase(b.title),
        lowercase(a.description) == lowercase(b.description),
    ensures
        a.matches(p) == b.matches(q),
{
}

/// Two ordered lists that hold the same tasks are the same list.
pub proof fn lemma_ordered_unique(a: Seq<TodoView>, b: Seq<TodoView>)
    requires
        is_ordered(a),
        is_ordered(b),
        forall|task: TodoView| a.contains(task) <==> b.contains(task),
    ensures
        a == b,
    decreases a.len(),
{
    if a.len() == 0 {
        if b.len() > 0 {
            assert(b.contains(b[0]));
        }
    } else {
        // each list begins with the task that stands before all others
        assert(b.contains(a[0]));
        assert(a.contains(b[0]));
        assert(a[0] == b[0]);
        let x = a.drop_first();
        let y = b.drop_first();
        assert forall|task: TodoView| x.contains(task) <==> y.contains(task) by {
            if x.contains(task) {
                let i = choose|i: int| 0 <= i < x.len() && x[i] == task;
                assert(a.contains(task));
                let j = choose|j: int| 0 <= j < b.len() && b[j] == task;
                assert(y[j - 1] == task);
            }
            if y.contains(task) {
                let i = choose|i: int| 0 <= i < y.len() && y[i] == task;
                assert(b.contains(task));
                let j = choose|j: int| 0 <= j < a.len() && a[j] == task;
                assert(x[j - 1] == task);
            }
        }
        lemma_ordered_unique(x, y);
        assert(b =~= seq![b[0]] + y);
    }
}

/// What a state shows is settled by the state: it has one listing only.
pub proof fn lemma_listing_unique(s: StateView, a: Seq<TodoView>, b: Seq<TodoView>)
    requires
        s.is_listing(a),
        s.is_listing(b),
    ensures
        a == b,
{
    lemma_ordered_unique(a, b);
}

/// A state that is taken apart and put together again is the state it was:
/// the parts of a valid state fit together, and the state they make up is that
/// state.
pub proof fn lemma_saved_state_is_restored(s: StateView, parts: SnapshotView)
    requires
        s.valid(),
        s.is_saved_as(parts),
    ensures
        parts.valid(),
        parts.state() == s,
{
    assert(parts.tasks() =~= s.tasks);
}

} // verus!
