//! The tasks and the state of the list, as the program holds them.

use crate::listing::select;
use crate::model::{MessageView, SnapshotView, StateView, TodoView};
use crate::text::{found_in, is_substring, lowercase, to_lowercase, trim, trimmed};
use crate::time::{now, Timestamp};
use std::collections::HashMap;
use vstd::std_specs::hash::spec_hash_map_iter;
use vstd::std_specs::iter::IteratorSpec;
use vstd::string::StringExecFns;
use vstd::prelude::*;

verus! {

/// Which tasks the list shows.
#[derive(Debug, Clone, Copy, PartialEq, Eq, Structural)]
pub enum Filter {
    All,
    Active,
    Completed,
}

/// One task.
#[derive(Debug)]
pub struct Todo {
    pub id: usize,
    pub title: String,
    pub description: String,
    pub completed: bool,
    pub created_at: Timestamp,
}

impl View for Todo {
    type V = TodoView;

    open spec fn view(&self) -> TodoView {
        TodoView {
            id: self.id as nat,
            title: self.title@,
            description: self.description@,
            completed: self.completed,
            created_at: self.created_at,
        }
    }
}

impl Clone for Todo {
    fn clone(&self) -> (r: Self)
        ensures
            r == *self,
    {
        Todo {
            id: self.id,
            title: self.title.clone(),
            description: self.description.clone(),
            completed: self.completed,
            created_at: self.created_at,
        }
    }
}

impl Todo {
    /// Whether `filter` lets the task through.
    pub fn passes(&self, filter: Filter) -> (b: bool)
        ensures
            b == self@.passes(filter),
    {
        match filter {
            Filter::All => true,
            Filter::Active => !self.completed,
            Filter::Completed => self.completed,
        }
    }

    /// Whether `needle`, taken as it is, occurs in the lower-case form of the
    /// title or of the description.
    pub fn mentions(&self, needle: &str) -> (b: bool)
        ensures
            b == (is_substring(needle@, lowercase(self@.title)) || is_substring(
                needle@,
                lowercase(self@.description),
            )),
    {
        let title = to_lowercase(self.title.as_str());
        let description = to_lowercase(self.description.as_str());
        found_in(needle, title.as_str(), description.as_str())
    }

    /// Whether the task stands before `other` in a listing.
    pub fn precedes(&self, other: &Todo) -> (b: bool)
        ensures
            b == self@.precedes(other@),
    {
        self.created_at.after(&other.created_at) || (self.created_at == other.created_at
            && self.id > other.id)
    }
}

/// The tasks of a list of tasks, in the same order.
pub open spec fn views(list: Seq<&Todo>) -> Seq<TodoView> {
    list.map_values(|todo: &Todo| todo@)
}

/// One user action.
#[derive(Debug)]
pub enum Message {
    AddTodo,
    DeleteTodo(usize),
    ToggleTodo(usize),
    FilterChanged(Filter),
    SearchQueryChanged(String),
    EditingTodo(usize, String),
    InputChanged(String),
    DescriptionChanged(usize, String),
    FinishEditing,
    CancelEditing,
}

impl Clone for Message {
    fn clone(&self) -> (r: Self)
        ensures
            r == *self,
    {
        match self {
            Message::AddTodo => Message::AddTodo,
            Message::DeleteTodo(id) => Message::DeleteTodo(*id),
            Message::ToggleTodo(id) => Message::ToggleTodo(*id),
            Message::FilterChanged(filter) => Message::FilterChanged(*filter),
            Message::SearchQueryChanged(query) => Message::SearchQueryChanged(query.clone()),
            Message::EditingTodo(id, text) => Message::EditingTodo(*id, text.clone()),
            Message::InputChanged(text) => Message::InputChanged(text.clone()),
            Message::DescriptionChanged(id, text) => Message::DescriptionChanged(
                *id,
                text.clone(),
            ),
            Message::FinishEditing => Message::FinishEditing,
            Message::CancelEditing => Message::CancelEditing,
        }
    }
}

impl View for Message {
    type V = MessageView;

    open spec fn view(&self) -> MessageView {
        match *self {
            Message::AddTodo => MessageView::AddTodo,
            Message::DeleteTodo(id) => MessageView::DeleteTodo(id as nat),
            Message::ToggleTodo(id) => MessageView::ToggleTodo(id as nat),
            Message::FilterChanged(filter) => MessageView::FilterChanged(filter),
            Message::SearchQueryChanged(query) => MessageView::SearchQueryChanged(query@),
            Message::EditingTodo(id, text) => MessageView::EditingTodo(id as nat, text@),
            Message::InputChanged(text) => MessageView::InputChanged(text@),
            Message::DescriptionChanged(id, text) => MessageView::DescriptionChanged(
                id as nat,
                text@,
            ),
            Message::FinishEditing => MessageView::FinishEditing,
            Message::CancelEditing => MessageView::CancelEditing,
        }
    }
}

/// The tasks of a map from ids to tasks, each filed under the same id.
pub open spec fn tasks_of(m: Map<usize, Todo>) -> Map<nat, TodoView> {
    Map::new(
        |id: nat| id <= usize::MAX && m.contains_key(id as usize),
        |id: nat| m[id as usize]@,
    )
}

/// The state of the list: the tasks, the id that the next task gets, what is
/// shown and what is being typed.
#[derive(Debug)]
pub struct TodoState {
    todos: HashMap<usize, Todo>,
    next_id: usize,
    filter: Filter,
    search_query: String,
    editing: Option<(usize, String)>,
}

impl View for TodoState {
    type V = StateView;

    closed spec fn view(&self) -> StateView {
        StateView {
            tasks: tasks_of(self.todos@),
            next_id: self.next_id as nat,
            filter: self.filter,
            search_query: self.search_query@,
            editing: match self.editing {
                Some((target, text)) => Some((target as nat, text@)),
                None => None,
            },
        }
    }
}

impl Default for TodoState {
    fn default() -> (r: Self)
        ensures
            r@ == StateView::initial(),
    {
        let r = TodoState {
            todos: HashMap::new(),
            next_id: 1,
            filter: Filter::All,
            search_query: String::new(),
            editing: None,
        };
        assert(r@.tasks =~= Map::empty());
        r
    }
}

impl Clone for TodoState {
    fn clone(&self) -> (r: Self)
        ensures
            r@ == self@,
    {
        proof {
            use_type_invariant(self);
        }
        let editing = match &self.editing {
            Some((target, text)) => Some((*target, text.clone())),
            None => None,
        };
        TodoState {
            todos: self.todos.clone(),
            next_id: self.next_id,
            filter: self.filter,
            search_query: self.search_query.clone(),
            editing,
        }
    }
}

/// The state as plain values, for storing: the tasks in some order, each with
/// the id under which it is filed, and the other four fields.
#[derive(Debug)]
pub struct Snapshot {
    pub todos: Vec<(usize, Todo)>,
    pub next_id: usize,
    pub filter: Filter,
    pub search_query: String,
    pub editing: Option<(usize, String)>,
}

impl View for Snapshot {
    type V = SnapshotView;

    open spec fn view(&self) -> SnapshotView {
        SnapshotView {
            todos: self.todos@.map_values(|entry: (usize, Todo)| (entry.0 as nat, entry.1@)),
            next_id: self.next_id as nat,
            filter: self.filter,
            search_query: self.search_query@,
            editing: match self.editing {
                Some((target, text)) => Some((target as nat, text@)),
                None => None,
            },
        }
    }
}

/// What `load` says of parts that do not fit together.
pub open spec fn misfit_message() -> Seq<char> {
    "Failed to parse todos: the tasks do not fit together"@
}

impl TodoState {
    /// Whatever the program holds is a valid state.
    #[verifier::type_invariant]
    pub open spec fn inv(self) -> bool {
        self@.valid()
    }

    /// The text that is searched for.
    pub fn search_query(&self) -> (r: &String)
        ensures
            r@ == self@.search_query,
    {
        &self.search_query
    }

    /// Which tasks the list shows.
    pub fn filter(&self) -> (r: &Filter)
        ensures
            *r == self@.filter,
    {
        &self.filter
    }

    /// The task that is being edited and the text typed so far; the target 0
    /// stands for the draft of a new task.
    pub fn editing(&self) -> (r: Option<(usize, &String)>)
        ensures
            match r {
                Some((target, text)) => self@.editing == Some((target as nat, text@)),
                None => self@.editing is None,
            },
    {
        match &self.editing {
            Some((target, text)) => Some((*target, text)),
            None => None,
        }
    }

    /// The id that the next task gets.
    pub fn next_id(&self) -> (r: usize)
        ensures
            r == self@.next_id,
    {
        self.next_id
    }

    /// Every task once, in no particular order.
    pub fn all_todos(&self) -> (r: Vec<&Todo>)
        ensures
            self@.is_inventory(views(r@)),
    {
        broadcast use vstd::std_specs::hash::group_hash_axioms;
        proof {
            use_type_invariant(self);
        }
        let mut all: Vec<&Todo> = Vec::new();
        for pair in it: self.todos.iter()
            invariant
                it.seq() == spec_hash_map_iter(&self.todos).remaining(),
                all.len() == it.index(),
                forall|i: int| 0 <= i < all.len() ==> all[i] == it.seq()[i].1,
        {
            all.push(pair.1);
        }
        proof {
            let pairs = spec_hash_map_iter(&self.todos).remaining();
            let list = views(all@);
            assert forall|i: int| 0 <= i < list.len() implies self@.has(#[trigger] list[i]) by {
                assert(self@.tasks.contains_key(*pairs[i].0 as nat));
            }
            assert forall|id: nat| #[trigger] self@.tasks.contains_key(id) implies list.contains(
                self@.tasks[id],
            ) by {
                let key = id as usize;
                let pair = (&key, &self.todos@[key]);
                let i = choose|i: int| 0 <= i < pairs.len() && pairs[i] == pair;
                assert(list[i] == self@.tasks[id]);
            }
            assert forall|i: int, j: int| 0 <= i < j < list.len() implies (#[trigger] list[i]).id
                != (#[trigger] list[j]).id by {
                assert(self@.tasks.contains_key(*pairs[i].0 as nat));
                assert(self@.tasks.contains_key(*pairs[j].0 as nat));
            }
        }
        all
    }

    /// The tasks to show: those that the filter lets through and the search finds,
    /// the newest first; of two created at the same instant, the one with the
    /// larger id first.
    pub fn filtered_todos(&self) -> (r: Vec<&Todo>)
        ensures
            self@.is_listing(views(r@)),
    {
        let all = self.all_todos();
        select(all.as_slice(), self.filter, self.search_query.as_str())
    }

    /// Handling `message` would create a task.
    pub fn creates_task(&self, message: &Message) -> (b: bool)
        ensures
            b == self@.creates_task(message@),
    {
        match message {
            Message::AddTodo => match &self.editing {
                Some((target, text)) => *target == 0 && !trim(text.as_str()).is_empty(),
                None => false,
            },
            _ => false,
        }
    }

    /// The state can handle `message`: if a task is to be created, an id is left
    /// for it.
    pub open spec fn accepts(&self, message: &Message) -> bool {
        self@.creates_task(message@) ==> self@.next_id < usize::MAX
    }

    /// Whether the state can handle `message`.
    pub fn can_handle(&self, message: &Message) -> (b: bool)
        ensures
            b == self.accepts(message),
    {
        !self.creates_task(message) || self.next_id < usize::MAX
    }

    /// Handles `message`. Where a task is created, the clock is read for the
    /// instant of its creation, of which nothing is known here; no other message
    /// depends on the clock.
    pub fn update(&mut self, message: Message)
        requires
            old(self).accepts(&message),
        ensures
            exists|now: Timestamp| final(self)@ == #[trigger] old(self)@.step(message@, now),
            !old(self)@.creates_task(message@) ==> forall|now: Timestamp|
                final(self)@ == #[trigger] old(self)@.step(message@, now),
    {
        let now = if self.creates_task(&message) {
            now()
        } else {
            Timestamp { secs: 0, nanos: 0 }
        };
        self.apply(message, now);
    }

    /// Handles `message` at the instant `now`.
    pub fn apply(&mut self, message: Message, now: Timestamp)
        requires
            old(self).accepts(&message),
        ensures
            final(self)@ == old(self)@.step(message@, now),
    {
        proof {
            use_type_invariant(&*self);
        }
        match message {
            Message::AddTodo => {
                if self.editing.is_none() {
                    self.editing = Some((0, String::new()));
                } else if let Some(title) = self.draft_title() {
                    self.add_todo(title, now);
                    self.editing = Some((0, String::new()));
                }
            },
            Message::DeleteTodo(id) => {
                self.take_task(id);
                let mut clear: bool = false;
                if let Some((target, _)) = &self.editing {
                    clear = *target == id;
                }
                if clear {
                    self.editing = None;
                }
            },
            Message::ToggleTodo(id) => {
                if let Some(mut todo) = self.take_task(id) {
                    todo.completed = !todo.completed;
                    self.put_task(todo);
                    assert(self@.tasks =~= old(self)@.step(message@, now).tasks);
                } else {
                    assert(self@.tasks =~= old(self)@.tasks);
                }
            },
            Message::FilterChanged(filter) => {
                self.filter = filter;
            },
            Message::SearchQueryChanged(query) => {
                self.search_query = query;
            },
            Message::EditingTodo(id, text) => {
                self.editing = Some((id, text));
            },
            Message::InputChanged(text) => {
                let mut target: Option<usize> = None;
                if let Some((id, _)) = &self.editing {
                    target = Some(*id);
                }
                if let Some(id) = target {
                    self.editing = Some((id, text));
                }
            },
            Message::DescriptionChanged(id, text) => {
                if let Some(mut todo) = self.take_task(id) {
                    todo.description = text;
                    self.put_task(todo);
                    assert(self@.tasks =~= old(self)@.step(message@, now).tasks);
                } else {
                    assert(self@.tasks =~= old(self)@.tasks);
                }
            },
            Message::FinishEditing => {
                if let Some((target, title)) = self.edited_title() {
                    self.set_title(target, title);
                }
                self.editing = None;
            },
            Message::CancelEditing => {
                self.editing = None;
            },
        }
    }

    /// Files a new task with the given title, created at the instant `now`, under
    /// the next id.
    pub fn add_todo(&mut self, title: String, now: Timestamp)
        requires
            old(self)@.next_id < usize::MAX,
        ensures
            final(self)@ == old(self)@.added(title@, now),
    {
        proof {
            use_type_invariant(&*self);
        }
        let id: usize = self.next_id;
        self.next_id = id + 1;
        self.put_task(
            Todo { id, title, description: String::new(), completed: false, created_at: now },
        );
    }

    /// Gives the task `id` the title `title`; does nothing if there is no such
    /// task.
    pub fn set_title(&mut self, id: usize, title: String)
        ensures
            final(self)@ == old(self)@.retitled(id as nat, title@),
    {
        proof {
            use_type_invariant(&*self);
        }
        if let Some(mut todo) = self.take_task(id) {
            todo.title = title;
            self.put_task(todo);
            assert(self@.tasks =~= old(self)@.retitled(id as nat, title@).tasks);
        } else {
            assert(self@.tasks =~= old(self)@.tasks);
        }
    }

    /// The title of the task that submitting the draft would create: the text of
    /// the draft of a new task, trimmed, unless nothing is left of it.
    fn draft_title(&self) -> (r: Option<String>)
        ensures
            match r {
                Some(title) => {
                    &&& self@.creates_task(MessageView::AddTodo)
                    &&& self@.editing matches Some((_, text))
                    &&& title@ == trimmed(text)
                },
                None => !self@.creates_task(MessageView::AddTodo),
            },
    {
        match &self.editing {
            Some((target, text)) if *target == 0 => {
                let kept = trim(text.as_str());
                if kept.is_empty() {
                    None
                } else {
                    Some(kept.to_owned())
                }
            },
            _ => None,
        }
    }

    /// The task that finishing the edit would retitle, and its new title: the
    /// text of the edit of an existing task, trimmed, unless nothing is left of
    /// it.
    fn edited_title(&self) -> (r: Option<(usize, String)>)
        ensures
            match r {
                Some((id, title)) => {
                    &&& self@.editing matches Some((target, text))
                    &&& target == id
                    &&& id > 0
                    &&& trimmed(text).len() > 0
                    &&& title@ == trimmed(text)
                },
                None => !(self@.editing matches Some((target, text)) && target > 0 && trimmed(
                    text,
                ).len() > 0),
            },
    {
        match &self.editing {
            Some((target, text)) if *target > 0 => {
                let kept = trim(text.as_str());
                if kept.is_empty() {
                    None
                } else {
                    Some((*target, kept.to_owned()))
                }
            },
            _ => None,
        }
    }

    /// Takes the task `id` out of the list, if it is there. The map is moved out
    /// of the state while it is changed and moved back afterwards, so that the
    /// state is valid at every moment.
    fn take_task(&mut self, id: usize) -> (r: Option<Todo>)
        ensures
            final(self)@ == (StateView { tasks: old(self)@.tasks.remove(id as nat), ..old(self)@ }),
            match r {
                Some(todo) => {
                    &&& old(self)@.tasks.contains_key(id as nat)
                    &&& old(self)@.tasks[id as nat] == todo@
                },
                None => !old(self)@.tasks.contains_key(id as nat),
            },
    {
        broadcast use vstd::std_specs::hash::group_hash_axioms;
        proof {
            use_type_invariant(&*self);
        }
        let mut todos: HashMap<usize, Todo> = HashMap::new();
        std::mem::swap(&mut self.todos, &mut todos);
        let r = todos.remove(&id);
        proof {
            assert(tasks_of(todos@) =~= old(self)@.tasks.remove(id as nat));
        }
        self.todos = todos;
        r
    }

    /// Files `todo` under its id, in place of any task that has it.
    fn put_task(&mut self, todo: Todo)
        requires
            1 <= todo.id < old(self)@.next_id,
        ensures
            final(self)@ == (StateView {
                tasks: old(self)@.tasks.insert(todo.id as nat, todo@),
                ..old(self)@
            }),
    {
        broadcast use vstd::std_specs::hash::group_hash_axioms;
        proof {
            use_type_invariant(&*self);
        }
        let mut todos: HashMap<usize, Todo> = HashMap::new();
        std::mem::swap(&mut self.todos, &mut todos);
        let ghost id = todo.id;
        let ghost view = todo@;
        todos.insert(todo.id, todo);
        proof {
            assert(tasks_of(todos@) =~= old(self)@.tasks.insert(id as nat, view));
        }
        self.todos = todos;
    }

    /// The state taken apart, for storing.
    pub fn save(&self) -> (r: Snapshot)
        ensures
            self@.is_saved_as(r@),
    {
        proof {
            use_type_invariant(self);
        }
        let all = self.all_todos();
        let mut todos: Vec<(usize, Todo)> = Vec::new();
        let mut i: usize = 0;
        while i < all.len()
            invariant
                i <= all.len(),
                todos.len() == i,
                forall|k: int| 0 <= k < i ==> (#[trigger] todos[k]) == (all[k].id, *all[k]),
            decreases all.len() - i,
        {
            let todo = all[i];
            todos.push((todo.id, todo.clone()));
            i = i + 1;
        }
        let editing = match &self.editing {
            Some((target, text)) => Some((*target, text.clone())),
            None => None,
        };
        let r = Snapshot {
            todos,
            next_id: self.next_id,
            filter: self.filter,
            search_query: self.search_query.clone(),
            editing,
        };
        proof {
            let list = views(all@);
            assert forall|i: int| 0 <= i < r@.todos.len() implies self@.tasks.contains_key(
                (#[trigger] r@.todos[i]).0,
            ) && self@.tasks[r@.todos[i].0] == r@.todos[i].1 by {
                assert(self@.has(list[i]));
            }
            assert forall|id: nat| #[trigger] self@.tasks.contains_key(id) implies r@.files(id) by {
                let i = choose|i: int| 0 <= i < list.len() && list[i] == self@.tasks[id];
                assert(r@.todos[i].0 == id);
            }
            assert forall|i: int, j: int|
                #![trigger r@.todos[i], r@.todos[j]]
                0 <= i < j < r@.todos.len() implies r@.todos[i].0 != r@.todos[j].0 by {
                assert(list[i].id != list[j].id);
            }
        }
        r
    }

    /// The state that was stored, from what was found in the store: `None` says
    /// that nothing has been stored yet, which gives the state of an untouched
    /// list; an error says that what was stored could not be read, and is handed
    /// on; parts that were read give the state they make up, or an error if they
    /// do not fit together.
    pub fn load(stored: Option<Result<Snapshot, String>>) -> (r: Result<TodoState, String>)
        ensures
            match stored {
                None => r matches Ok(state) && state@ == StateView::initial(),
                Some(Err(error)) => r matches Err(e) && e@ == error@,
                Some(Ok(parts)) => if parts@.valid() {
                    r matches Ok(state) && state@ == parts@.state()
                } else {
                    r matches Err(e) && e@ == misfit_message()
                },
            },
    {
        match stored {
            None => Ok(TodoState::default()),
            Some(Err(error)) => Err(error),
            Some(Ok(parts)) => match TodoState::restore(parts) {
                Some(state) => Ok(state),
                None => Err(
                    String::from_str("Failed to parse todos: the tasks do not fit together"),
                ),
            },
        }
    }

    /// Puts a state together from its parts. Parts that do not fit together give
    /// `None`.
    pub fn restore(parts: Snapshot) -> (r: Option<TodoState>)
        ensures
            r is Some <==> parts@.valid(),
            r matches Some(state) ==> state@ == parts@.state(),
    {
        broadcast use vstd::std_specs::hash::group_hash_axioms;
        let Snapshot { todos: entries, next_id, filter, search_query, editing } = parts;
        let ghost all = entries@;
        let ghost given = parts@;
        assert(forall|i: int|
            0 <= i < all.len() ==> (#[trigger] given.todos[i]) == (all[i].0 as nat, all[i].1@));
        if next_id < 1 {
            return None;
        }
        let mut todos: HashMap<usize, Todo> = HashMap::new();
        let mut pending = entries;
        let mut rest: usize = pending.len();
        while rest > 0
            invariant
                given == parts@,
                given.todos.len() == all.len(),
                given.next_id == next_id,
                forall|i: int|
                    0 <= i < all.len() ==> (#[trigger] given.todos[i]) == (
                        all[i].0 as nat,
                        all[i].1@,
                    ),
                next_id >= 1,
                rest == pending.len(),
                pending@ == all.subrange(0, rest as int),
                rest <= all.len(),
                forall|i: int|
                    rest <= i < all.len() ==> (#[trigger] all[i]).0 == all[i].1.id && 1
                        <= all[i].0 < next_id,
                forall|i: int, j: int|
                    rest <= i < j < all.len() ==> (#[trigger] all[i]).0 != (#[trigger] all[j]).0,
                forall|i: int|
                    rest <= i < all.len() ==> todos@.contains_key((#[trigger] all[i]).0)
                        && todos@[all[i].0] == all[i].1,
                forall|key: usize| #[trigger]
                    todos@.contains_key(key) ==> exists|i: int|
                        rest <= i < all.len() && (#[trigger] all[i]).0 == key,
            decreases rest,
        {
            let entry = pending.pop();
            rest = rest - 1;
            match entry {
                Some((key, todo)) => {
                    if key != todo.id || key < 1 || key >= next_id || todos.contains_key(&key) {
                        proof {
                            if todos@.contains_key(key) {
                                let i = choose|i: int|
                                    rest < i < all.len() && (#[trigger] all[i]).0 == key;
                                assert(given.todos[i].0 == given.todos[rest as int].0);
                            }
                            assert(!given.valid());
                        }
                        return None;
                    }
                    todos.insert(key, todo);
                },
                None => {},
            }
        }
        proof {
            let tasks = tasks_of(todos@);
            assert forall|id: nat| #[trigger] tasks.contains_key(id) implies 1 <= id < next_id
                && tasks[id].id == id && given.files(id) by {
                let i = choose|i: int| 0 <= i < all.len() && (#[trigger] all[i]).0 == id as usize;
                assert(given.todos[i].0 == id);
            }
            assert(tasks =~= given.tasks());
        }
        Some(TodoState { todos, next_id, filter, search_query, editing })
    }
}

} // verus!
