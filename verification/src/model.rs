//! The to-do list as mathematics: what a state holds, which states are valid,
//! and the state that each message leads to.

use crate::text::{is_substring, lowercase, trimmed};
use crate::time::Timestamp;
use crate::todo::Filter;
use vstd::prelude::*;

verus! {

/// One task.
pub struct TodoView {
    pub id: nat,
    pub title: Seq<char>,
    pub description: Seq<char>,
    pub completed: bool,
    pub created_at: Timestamp,
}

impl TodoView {
    /// The task is among those that `filter` lets through.
    pub open spec fn passes(self, filter: Filter) -> bool {
        match filter {
            Filter::All => true,
            Filter::Active => !self.completed,
            Filter::Completed => self.completed,
        }
    }

    /// The search for `query` finds the task: the query is empty, or its
    /// lower-case form occurs in the lower-case form of the title or of the
    /// description.
    pub open spec fn matches(self, query: Seq<char>) -> bool {
        ||| query.len() == 0
        ||| is_substring(lowercase(query), lowercase(self.title))
        ||| is_substring(lowercase(query), lowercase(self.description))
    }

    /// The task stands before `other` in a listing: it was created later, or at
    /// the same instant and has the larger id.
    pub open spec fn precedes(self, other: TodoView) -> bool {
        ||| self.created_at.is_after(other.created_at)
        ||| self.created_at == other.created_at && self.id > other.id
    }
}

/// Each task of `list` stands before all that follow it.
pub open spec fn is_ordered(list: Seq<TodoView>) -> bool {
    forall|i: int, j: int|
        0 <= i < j < list.len() ==> (#[trigger] list[i]).precedes(#[trigger] list[j])
}

/// No two tasks of `list` have the same id.
pub open spec fn has_distinct_ids(list: Seq<TodoView>) -> bool {
    forall|i: int, j: int|
        0 <= i < j < list.len() ==> (#[trigger] list[i]).id != (#[trigger] list[j]).id
}

/// `list` is what `all` shows under `filter` and the search for `query`: the
/// tasks of `all` that the filter lets through and the search finds, all of
/// them, the newest first.
pub open spec fn is_selection(
    all: Seq<TodoView>,
    filter: Filter,
    query: Seq<char>,
    list: Seq<TodoView>,
) -> bool {
    &&& forall|i: int|
        0 <= i < list.len() ==> all.contains(#[trigger] list[i]) && list[i].passes(filter)
            && list[i].matches(query)
    &&& forall|k: int|
        0 <= k < all.len() && (#[trigger] all[k]).passes(filter) && all[k].matches(query)
            ==> list.contains(all[k])
    &&& is_ordered(list)
}

/// One user action.
pub enum MessageView {
    AddTodo,
    DeleteTodo(nat),
    ToggleTodo(nat),
    FilterChanged(Filter),
    SearchQueryChanged(Seq<char>),
    EditingTodo(nat, Seq<char>),
    InputChanged(Seq<char>),
    DescriptionChanged(nat, Seq<char>),
    FinishEditing,
    CancelEditing,
}

/// The whole state. `editing` holds the task being edited and the text typed so
/// far; the target 0 stands for the draft of a task that does not exist yet.
pub struct StateView {
    pub tasks: Map<nat, TodoView>,
    pub next_id: nat,
    pub filter: Filter,
    pub search_query: Seq<char>,
    pub editing: Option<(nat, Seq<char>)>,
}

/// A state taken apart for storing: the tasks in some order, each with the id
/// under which it is filed, and the other four fields.
pub struct SnapshotView {
    pub todos: Seq<(nat, TodoView)>,
    pub next_id: nat,
    pub filter: Filter,
    pub search_query: Seq<char>,
    pub editing: Option<(nat, Seq<char>)>,
}

impl SnapshotView {
    /// The parts fit together: each task is filed under its own id, no id occurs
    /// twice, and every id is positive and below `next_id`.
    pub open spec fn valid(self) -> bool {
        &&& self.next_id >= 1
        &&& forall|i: int|
            0 <= i < self.todos.len() ==> (#[trigger] self.todos[i]).0 == self.todos[i].1.id && 1
                <= self.todos[i].0 < self.next_id
        &&& forall|i: int, j: int|
            #![trigger self.todos[i], self.todos[j]]
            0 <= i < j < self.todos.len() ==> self.todos[i].0 != self.todos[j].0
    }

    /// Some task is filed under `id`.
    pub open spec fn files(self, id: nat) -> bool {
        exists|i: int| 0 <= i < self.todos.len() && (#[trigger] self.todos[i]).0 == id
    }

    /// The tasks, each under the id under which it is filed.
    pub open spec fn tasks(self) -> Map<nat, TodoView> {
        Map::new(
            |id: nat| self.files(id),
            |id: nat|
                self.todos[choose|i: int|
                    0 <= i < self.todos.len() && (#[trigger] self.todos[i]).0 == id].1,
        )
    }

    /// The state that the parts make up.
    pub open spec fn state(self) -> StateView {
        StateView {
            tasks: self.tasks(),
            next_id: self.next_id,
            filter: self.filter,
            search_query: self.search_query,
            editing: self.editing,
        }
    }
}

impl StateView {
    /// The state of a list that nobody has touched yet.
    pub open spec fn initial() -> StateView {
        StateView {
            tasks: Map::empty(),
            next_id: 1,
            filter: Filter::All,
            search_query: Seq::empty(),
            editing: None,
        }
    }

    /// Every task is filed under its own id, ids are positive, and `next_id` lies
    /// above all of them.
    pub open spec fn valid(self) -> bool {
        &&& self.next_id >= 1
        &&& forall|id: nat| #[trigger]
            self.tasks.contains_key(id) ==> 1 <= id < self.next_id && self.tasks[id].id == id
    }

    /// `task` is a task of the state as it stands there.
    pub open spec fn has(self, task: TodoView) -> bool {
        self.tasks.contains_key(task.id) && self.tasks[task.id] == task
    }

    /// `list` holds every task of the state once, in some order.
    pub open spec fn is_inventory(self, list: Seq<TodoView>) -> bool {
        &&& forall|i: int| 0 <= i < list.len() ==> self.has(#[trigger] list[i])
        &&& forall|id: nat| #[trigger]
            self.tasks.contains_key(id) ==> list.contains(self.tasks[id])
        &&& has_distinct_ids(list)
    }

    /// `parts` is the state taken apart: it holds every task once, under its id,
    /// and the other four fields as they are.
    pub open spec fn is_saved_as(self, parts: SnapshotView) -> bool {
        &&& parts.next_id == self.next_id
        &&& parts.filter == self.filter
        &&& parts.search_query == self.search_query
        &&& parts.editing == self.editing
        &&& forall|i: int|
            0 <= i < parts.todos.len() ==> self.tasks.contains_key((#[trigger] parts.todos[i]).0)
                && self.tasks[parts.todos[i].0] == parts.todos[i].1
        &&& forall|id: nat| #[trigger] self.tasks.contains_key(id) ==> parts.files(id)
        &&& forall|i: int, j: int|
            #![trigger parts.todos[i], parts.todos[j]]
            0 <= i < j < parts.todos.len() ==> parts.todos[i].0 != parts.todos[j].0
    }

    /// `task` is a task of the state that the filter lets through and the search
    /// finds.
    pub open spec fn shows(self, task: TodoView) -> bool {
        self.has(task) && task.passes(self.filter) && task.matches(self.search_query)
    }

    /// `list` is what the state shows: the tasks that the filter lets through and
    /// the search finds, all of them, the newest first.
    pub open spec fn is_listing(self, list: Seq<TodoView>) -> bool {
        &&& forall|i: int| 0 <= i < list.len() ==> self.shows(#[trigger] list[i])
        &&& forall|id: nat| #[trigger]
            self.tasks.contains_key(id) && self.shows(self.tasks[id]) ==> list.contains(
                self.tasks[id],
            )
        &&& is_ordered(list)
    }

    /// The message commits a draft: a task comes into being.
    pub open spec fn creates_task(self, m: MessageView) -> bool {
        &&& m is AddTodo
        &&& self.editing matches Some((target, text))
        &&& target == 0
        &&& trimmed(text).len() > 0
    }

    /// The state with one more task: titled `title`, created at `now`, not
    /// completed, without a description, under the id `next_id`, which then moves
    /// on by one.
    pub open spec fn added(self, title: Seq<char>, now: Timestamp) -> StateView {
        StateView {
            tasks: self.tasks.insert(
                self.next_id,
                TodoView {
                    id: self.next_id,
                    title,
                    description: Seq::empty(),
                    completed: false,
                    created_at: now,
                },
            ),
            next_id: self.next_id + 1,
            ..self
        }
    }

    /// The state in which the task `id`, if there is one, has the title `title`.
    pub open spec fn retitled(self, id: nat, title: Seq<char>) -> StateView {
        if self.tasks.contains_key(id) {
            StateView { tasks: self.tasks.insert(id, TodoView { title, ..self.tasks[id] }), ..self }
        } else {
            self
        }
    }

    /// The state after `m`, where `now` is the instant at which `m` is handled.
    /// Only a draft that is committed reads `now`.
    pub open spec fn step(self, m: MessageView, now: Timestamp) -> StateView {
        match m {
            MessageView::AddTodo => match self.editing {
                None => StateView { editing: Some((0, Seq::empty())), ..self },
                Some((target, text)) => if target == 0 && trimmed(text).len() > 0 {
                    StateView {
                        editing: Some((0, Seq::empty())),
                        ..self.added(trimmed(text), now)
                    }
                } else {
                    self
                },
            },
            MessageView::DeleteTodo(id) => StateView {
                tasks: self.tasks.remove(id),
                editing: match self.editing {
                    Some((target, _)) if target == id => None,
                    _ => self.editing,
                },
                ..self
            },
            MessageView::ToggleTodo(id) => if self.tasks.contains_key(id) {
                let task = self.tasks[id];
                StateView {
                    tasks: self.tasks.insert(id, TodoView { completed: !task.completed, ..task }),
                    ..self
                }
            } else {
                self
            },
            MessageView::FilterChanged(filter) => StateView { filter, ..self },
            MessageView::SearchQueryChanged(query) => StateView { search_query: query, ..self },
            MessageView::EditingTodo(id, text) => StateView { editing: Some((id, text)), ..self },
            MessageView::InputChanged(text) => match self.editing {
                Some((target, _)) => StateView { editing: Some((target, text)), ..self },
                None => self,
            },
            MessageView::DescriptionChanged(id, text) => if self.tasks.contains_key(id) {
                let task = self.tasks[id];
                StateView {
                    tasks: self.tasks.insert(id, TodoView { description: text, ..task }),
                    ..self
                }
            } else {
                self
            },
            MessageView::FinishEditing => match self.editing {
                Some((target, text)) if target > 0 && trimmed(text).len() > 0 => StateView {
                    editing: None,
                    ..self.retitled(target, trimmed(text))
                },
                _ => StateView { editing: None, ..self },
            },
            MessageView::CancelEditing => StateView { editing: None, ..self },
        }
    }

    /// The state after the events of `events` in turn, each a message with the
    /// instant at which it is handled.
    pub open spec fn run(self, events: Seq<(MessageView, Timestamp)>) -> StateView
        decreases events.len(),
    {
        if events.len() == 0 {
            self
        } else {
            self.run(events.drop_last()).step(events.last().0, events.last().1)
        }
    }
}

} // verus!
