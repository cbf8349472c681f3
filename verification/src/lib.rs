//! A to-do list: the tasks, the transition that each user action causes, the
//! listing that is shown, and the decisions behind every element on screen.
//!
//! - [`model`] says what a state is and what each message does to it.
//! - [`todo`] holds the state as the program keeps it, with the functions that
//!   change it, list it, and take it apart for storing.
//! - [`listing`] filters, searches and orders a list of tasks.
//! - [`text`] and [`time`] hold the text operations and the instants that the
//!   rest relies on.
//! - [`ui`] describes the window as plain values.
//! - [`laws`] proves what holds of the list whatever the user does.
//!
//! The program itself, [`TodoApp`], stands here: it answers each event with the
//! next state and with what it asks of its surroundings.

use crate::model::StateView;
use crate::time::Timestamp;
use crate::todo::{Snapshot, TodoState};
use crate::ui::view::{view_app, AppView};
use vstd::prelude::*;
use vstd::string::StringExecFns;

pub mod laws;
pub mod listing;
pub mod model;
pub mod text;
pub mod time;
pub mod todo;
pub mod ui;

verus! {

/// The program: the state of the list, and what to do about each event.
pub struct TodoApp {
    todo_state: TodoState,
}

/// What reaches the program: an action of the user, a request to load or save,
/// or the outcome of one.
#[derive(Debug)]
pub enum Message {
    TodoMessage(todo::Message),
    LoadTodos,
    TodosLoaded(Result<TodoState, String>),
    SaveTodos,
    TodosSaved(Result<(), String>),
}

impl Message {
    /// The two events say the same.
    pub open spec fn agrees(self, other: Message) -> bool {
        match (self, other) {
            (Message::TodoMessage(a), Message::TodoMessage(b)) => a@ == b@,
            (Message::LoadTodos, Message::LoadTodos) => true,
            (Message::TodosLoaded(Ok(a)), Message::TodosLoaded(Ok(b))) => a@ == b@,
            (Message::TodosLoaded(Err(a)), Message::TodosLoaded(Err(b))) => a@ == b@,
            (Message::SaveTodos, Message::SaveTodos) => true,
            (Message::TodosSaved(Ok(_)), Message::TodosSaved(Ok(_))) => true,
            (Message::TodosSaved(Err(a)), Message::TodosSaved(Err(b))) => a@ == b@,
            _ => false,
        }
    }
}

impl Clone for Message {
    fn clone(&self) -> (r: Self)
        ensures
            r.agrees(*self),
    {
        match self {
            Message::TodoMessage(action) => Message::TodoMessage(action.clone()),
            Message::LoadTodos => Message::LoadTodos,
            Message::TodosLoaded(Ok(state)) => Message::TodosLoaded(Ok(state.clone())),
            Message::TodosLoaded(Err(error)) => Message::TodosLoaded(Err(error.clone())),
            Message::SaveTodos => Message::SaveTodos,
            Message::TodosSaved(Ok(())) => Message::TodosSaved(Ok(())),
            Message::TodosSaved(Err(error)) => Message::TodosSaved(Err(error.clone())),
        }
    }
}

/// What the program asks of its surroundings after an event.
#[derive(Debug)]
pub enum Effect {
    /// Nothing.
    Nothing,
    /// Hand this message back to the program.
    Send(Message),
    /// Read the stored state and answer with `TodosLoaded`.
    Load,
    /// Store these parts of the state and answer with `TodosSaved`.
    Save(Snapshot),
}

impl TodoApp {
    /// The state of the list.
    pub closed spec fn state(&self) -> StateView {
        self.todo_state@
    }

    /// The program can handle `message`: if it is a user action that creates a
    /// task, an id is left for the task.
    pub open spec fn accepts(&self, message: &Message) -> bool {
        message matches Message::TodoMessage(action) ==> (self.state().creates_task(action@)
            ==> self.state().next_id < usize::MAX)
    }

    /// Whether the program can handle `message`.
    pub fn can_handle(&self, message: &Message) -> (b: bool)
        ensures
            b == self.accepts(message),
    {
        match message {
            Message::TodoMessage(action) => self.todo_state.can_handle(action),
            _ => true,
        }
    }

    /// The program as it starts: the list is empty, and the first thing asked
    /// for is to load what was stored.
    pub fn new() -> (r: (TodoApp, Effect))
        ensures
            r.0.state() == StateView::initial(),
            r.1 matches Effect::Send(Message::LoadTodos),
    {
        (TodoApp { todo_state: TodoState::default() }, Effect::Send(Message::LoadTodos))
    }

    /// The title of the window.
    pub fn title(&self) -> (r: String)
        ensures
            r@ == "Todo App"@,
    {
        String::from_str("Todo App")
    }

    /// Handles one event. A user action changes the state and asks for the state
    /// to be saved; a request to load is passed on; a request to save is passed
    /// on with the state taken apart; a state that was loaded takes the place of
    /// the present one; a failed load and the outcome of a save change nothing.
    pub fn update(&mut self, message: Message) -> (effect: Effect)
        requires
            old(self).accepts(&message),
        ensures
            match message {
                Message::TodoMessage(action) => {
                    &&& exists|now: Timestamp|
                        final(self).state() == #[trigger] old(self).state().step(action@, now)
                    &&& !old(self).state().creates_task(action@) ==> forall|now: Timestamp|
                        final(self).state() == #[trigger] old(self).state().step(action@, now)
                    &&& effect matches Effect::Send(Message::SaveTodos)
                },
                Message::LoadTodos => final(self).state() == old(self).state() && effect is Load,
                Message::TodosLoaded(Ok(state)) => {
                    &&& final(self).state() == state@
                    &&& effect is Nothing
                },
                Message::TodosLoaded(Err(_)) => {
                    &&& final(self).state() == old(self).state()
                    &&& effect is Nothing
                },
                Message::SaveTodos => {
                    &&& final(self).state() == old(self).state()
                    &&& effect matches Effect::Save(parts)
                    &&& old(self).state().is_saved_as(parts@)
                },
                Message::TodosSaved(_) => {
                    &&& final(self).state() == old(self).state()
                    &&& effect is Nothing
                },
            },
    {
        match message {
            Message::TodoMessage(action) => {
                self.todo_state.update(action);
                Effect::Send(Message::SaveTodos)
            },
            Message::LoadTodos => Effect::Load,
            Message::TodosLoaded(Ok(state)) => {
                self.todo_state = state;
                Effect::Nothing
            },
            Message::TodosLoaded(Err(_)) => Effect::Nothing,
            Message::SaveTodos => Effect::Save(self.todo_state.save()),
            Message::TodosSaved(_) => Effect::Nothing,
        }
    }

    /// The window, as the state has it.
    pub fn view(&self) -> (r: AppView)
        ensures
            r.is_for(self.state()),
    {
        view_app(&self.todo_state)
    }
}

} // verus!
