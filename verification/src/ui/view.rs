//! The window as plain values: for each element what it shows, how it looks and
//! which message it sends.

use crate::model::{MessageView, StateView, TodoView};
use crate::todo::{views, Filter, Message, Todo, TodoState};
use crate::ui::style::{ButtonStyle, CheckboxStyle, ContainerStyle, TextInputStyle};
use vstd::prelude::*;
use vstd::string::StringExecFns;

verus! {

/// Which message a text field sends when its text changes.
#[derive(Debug, Clone, Copy, PartialEq, Eq, Structural)]
pub enum OnInput {
    InputChanged,
    SearchQueryChanged,
}

impl OnInput {
    /// The message that the field sends when its text becomes `text`.
    pub open spec fn message_of(self, text: Seq<char>) -> MessageView {
        match self {
            OnInput::InputChanged => MessageView::InputChanged(text),
            OnInput::SearchQueryChanged => MessageView::SearchQueryChanged(text),
        }
    }

    /// The message to send when the text of the field becomes `text`.
    pub fn message(self, text: String) -> (r: Message)
        ensures
            r@ == self.message_of(text@),
    {
        match self {
            OnInput::InputChanged => Message::InputChanged(text),
            OnInput::SearchQueryChanged => Message::SearchQueryChanged(text),
        }
    }
}

/// The field in which a task is typed, and the button beside it.
pub struct AddTodoInput {
    pub value: String,
    pub style: TextInputStyle,
    pub on_input: OnInput,
    pub on_submit: Message,
    pub button: ButtonStyle,
}

impl AddTodoInput {
    /// The field shows the text typed so far, and nothing where nothing is being
    /// typed; it is lit unless an existing task is being edited; typing sends
    /// `InputChanged`, and submitting sends `AddTodo`.
    pub open spec fn is_for(self, state: StateView) -> bool {
        &&& match state.editing {
            Some((target, text)) => self.value@ == text && self.style == TextInputStyle::of_draft(
                target,
            ),
            None => self.value@.len() == 0 && self.style == TextInputStyle::Focused,
        }
        &&& self.on_input == OnInput::InputChanged
        &&& self.on_submit@ == MessageView::AddTodo
        &&& self.button == ButtonStyle::Add
    }
}

/// The field for new tasks, as the state has it.
pub fn view_add_todo_input(state: &TodoState) -> (r: AddTodoInput)
    ensures
        r.is_for(state@),
{
    let (value, style) = match state.editing() {
        Some((target, text)) => (text.clone(), TextInputStyle::for_draft(target)),
        None => (String::new(), TextInputStyle::for_draft(0)),
    };
    AddTodoInput {
        value,
        style,
        on_input: OnInput::InputChanged,
        on_submit: Message::AddTodo,
        button: ButtonStyle::Add,
    }
}

/// A button that makes the list show `filter`.
pub struct FilterButton {
    pub filter: Filter,
    pub label: String,
    pub style: ButtonStyle,
    pub on_press: Message,
}

/// What the button for `filter` says.
pub open spec fn label_of(filter: Filter) -> Seq<char> {
    match filter {
        Filter::All => "All"@,
        Filter::Active => "Active"@,
        Filter::Completed => "Completed"@,
    }
}

impl FilterButton {
    /// The button is the one for `filter` while the list shows `current`: it
    /// names the filter, stands out if the filter is in force, and sends the
    /// filter when pressed.
    pub open spec fn is_for(self, filter: Filter, current: Filter) -> bool {
        &&& self.filter == filter
        &&& self.label@ == label_of(filter)
        &&& self.style == ButtonStyle::of_filter(filter, current)
        &&& self.on_press@ == MessageView::FilterChanged(filter)
    }

    /// The button for `filter` while the list shows `current`.
    pub fn new(filter: Filter, current: Filter) -> (r: FilterButton)
        ensures
            r.is_for(filter, current),
    {
        let label = match filter {
            Filter::All => String::from_str("All"),
            Filter::Active => String::from_str("Active"),
            Filter::Completed => String::from_str("Completed"),
        };
        FilterButton {
            filter,
            label,
            style: ButtonStyle::for_filter(filter, current),
            on_press: Message::FilterChanged(filter),
        }
    }
}

/// The search field and the three filter buttons.
pub struct SearchAndFilter {
    pub query: String,
    pub style: TextInputStyle,
    pub on_input: OnInput,
    pub all: FilterButton,
    pub active: FilterButton,
    pub completed: FilterButton,
}

impl SearchAndFilter {
    /// The search field shows the text searched for, and typing into it sends
    /// `SearchQueryChanged`; of the three buttons the one for the filter in force
    /// stands out.
    pub open spec fn is_for(self, state: StateView) -> bool {
        &&& self.query@ == state.search_query
        &&& self.style == TextInputStyle::Default
        &&& self.on_input == OnInput::SearchQueryChanged
        &&& self.all.is_for(Filter::All, state.filter)
        &&& self.active.is_for(Filter::Active, state.filter)
        &&& self.completed.is_for(Filter::Completed, state.filter)
    }
}

/// The search field and the filter buttons, as the state has them.
pub fn view_search_and_filter(state: &TodoState) -> (r: SearchAndFilter)
    ensures
        r.is_for(state@),
{
    let current = *state.filter();
    SearchAndFilter {
        query: state.search_query().clone(),
        style: TextInputStyle::Default,
        on_input: OnInput::SearchQueryChanged,
        all: FilterButton::new(Filter::All, current),
        active: FilterButton::new(Filter::Active, current),
        completed: FilterButton::new(Filter::Completed, current),
    }
}

/// One task on screen.
pub struct TodoItem {
    pub checked: bool,
    pub checkbox: CheckboxStyle,
    pub on_toggle: Message,
    pub title: String,
    pub dimmed: bool,
    pub description: Option<String>,
    pub edit: ButtonStyle,
    pub on_edit: Message,
    pub delete: ButtonStyle,
    pub on_delete: Message,
    pub style: ContainerStyle,
}

/// One task on screen, as mathematics.
pub struct TodoItemView {
    pub checked: bool,
    pub checkbox: CheckboxStyle,
    pub on_toggle: MessageView,
    pub title: Seq<char>,
    pub dimmed: bool,
    pub description: Option<Seq<char>>,
    pub edit: ButtonStyle,
    pub on_edit: MessageView,
    pub delete: ButtonStyle,
    pub on_delete: MessageView,
    pub style: ContainerStyle,
}

impl View for TodoItem {
    type V = TodoItemView;

    open spec fn view(&self) -> TodoItemView {
        TodoItemView {
            checked: self.checked,
            checkbox: self.checkbox,
            on_toggle: self.on_toggle@,
            title: self.title@,
            dimmed: self.dimmed,
            description: match self.description {
                Some(text) => Some(text@),
                None => None,
            },
            edit: self.edit,
            on_edit: self.on_edit@,
            delete: self.delete,
            on_delete: self.on_delete@,
            style: self.style,
        }
    }
}

/// How `task` appears: ticked and dimmed if it is completed; its description
/// only if it has one; the buttons send messages about this very task, and
/// editing starts from its present title.
pub open spec fn item_of(task: TodoView) -> TodoItemView {
    TodoItemView {
        checked: task.completed,
        checkbox: CheckboxStyle::Todo,
        on_toggle: MessageView::ToggleTodo(task.id),
        title: task.title,
        dimmed: task.completed,
        description: if task.description.len() > 0 {
            Some(task.description)
        } else {
            None
        },
        edit: ButtonStyle::Filter,
        on_edit: MessageView::EditingTodo(task.id, task.title),
        delete: ButtonStyle::Delete,
        on_delete: MessageView::DeleteTodo(task.id),
        style: ContainerStyle::of_todo(task.completed),
    }
}

/// The task as it appears on screen.
pub fn view_todo_item(todo: &Todo) -> (r: TodoItem)
    ensures
        r@ == item_of(todo@),
{
    let description = if todo.description.as_str().is_empty() {
        None
    } else {
        Some(todo.description.clone())
    };
    TodoItem {
        checked: todo.completed,
        checkbox: CheckboxStyle::Todo,
        on_toggle: Message::ToggleTodo(todo.id),
        title: todo.title.clone(),
        dimmed: todo.completed,
        description,
        edit: ButtonStyle::Filter,
        on_edit: Message::EditingTodo(todo.id, todo.title.clone()),
        delete: ButtonStyle::Delete,
        on_delete: Message::DeleteTodo(todo.id),
        style: ContainerStyle::for_todo(todo.completed),
    }
}

/// The list of tasks on screen: a notice where there is nothing to show.
pub enum TodoList {
    Empty,
    Items(Vec<TodoItem>),
}

/// The items of a list, from top to bottom.
pub open spec fn item_views(items: Seq<TodoItem>) -> Seq<TodoItemView> {
    items.map_values(|item: TodoItem| item@)
}

impl View for TodoList {
    type V = Seq<TodoItemView>;

    open spec fn view(&self) -> Seq<TodoItemView> {
        match *self {
            TodoList::Empty => Seq::empty(),
            TodoList::Items(items) => item_views(items@),
        }
    }
}

impl TodoList {
    /// The list shows the tasks `tasks`, in their order; the notice stands in
    /// its place where there are none.
    pub open spec fn shows(self, tasks: Seq<TodoView>) -> bool {
        &&& self@ == tasks.map_values(|task: TodoView| item_of(task))
        &&& self is Empty <==> tasks.len() == 0
    }

    /// The list shows what the state's listing holds.
    pub open spec fn is_for(self, state: StateView) -> bool {
        exists|tasks: Seq<TodoView>| #[trigger] state.is_listing(tasks) && self.shows(tasks)
    }
}

/// The list of tasks, as the state has it.
pub fn view_todo_list(state: &TodoState) -> (r: TodoList)
    ensures
        r.is_for(state@),
{
    let todos = state.filtered_todos();
    if todos.len() == 0 {
        proof {
            assert(views(todos@).map_values(|task: TodoView| item_of(task)) =~= Seq::empty());
        }
        return TodoList::Empty;
    }
    let mut items: Vec<TodoItem> = Vec::new();
    let mut i: usize = 0;
    while i < todos.len()
        invariant
            i <= todos.len(),
            items.len() == i,
            forall|k: int| 0 <= k < i ==> (#[trigger] items[k])@ == item_of(todos[k]@),
        decreases todos.len() - i,
    {
        items.push(view_todo_item(todos[i]));
        i = i + 1;
    }
    proof {
        assert(item_views(items@) =~= views(todos@).map_values(|task: TodoView| item_of(task)));
    }
    TodoList::Items(items)
}

/// The whole window.
pub struct AppView {
    pub style: ContainerStyle,
    pub add_todo_input: AddTodoInput,
    pub search_and_filter: SearchAndFilter,
    pub todo_list: TodoList,
}

impl AppView {
    /// The window holds the field for new tasks, the search field with the
    /// filter buttons, and the list, each as the state has it.
    pub open spec fn is_for(self, state: StateView) -> bool {
        &&& self.style == ContainerStyle::MainContainer
        &&& self.add_todo_input.is_for(state)
        &&& self.search_and_filter.is_for(state)
        &&& self.todo_list.is_for(state)
    }
}

/// The whole window, as the state has it.
pub fn view_app(state: &TodoState) -> (r: AppView)
    ensures
        r.is_for(state@),
{
    AppView {
        style: ContainerStyle::MainContainer,
        add_todo_input: view_add_todo_input(state),
        search_and_filter: view_search_and_filter(state),
        todo_list: view_todo_list(state),
    }
}

} // verus!
