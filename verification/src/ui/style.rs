//! The looks that the elements of the window can take, and which of them an
//! element takes in a given state.

use crate::todo::Filter;
use vstd::prelude::*;

verus! {

/// The looks of a box.
#[derive(Debug, Clone, Copy, PartialEq, Eq, Structural)]
pub enum ContainerStyle {
    MainContainer,
    TodoItem,
    CompletedTodoItem,
}

impl ContainerStyle {
    /// The box around a task: one look for a completed task, another for an open
    /// one.
    pub fn for_todo(completed: bool) -> (r: ContainerStyle)
        ensures
            r == Self::of_todo(completed),
    {
        if completed {
            ContainerStyle::CompletedTodoItem
        } else {
            ContainerStyle::TodoItem
        }
    }

    /// The look of the box around a task.
    pub open spec fn of_todo(completed: bool) -> ContainerStyle {
        if completed {
            ContainerStyle::CompletedTodoItem
        } else {
            ContainerStyle::TodoItem
        }
    }
}

/// The looks of a button.
#[derive(Debug, Clone, Copy, PartialEq, Eq, Structural)]
pub enum ButtonStyle {
    Add,
    Delete,
    Filter,
    FilterActive,
}

impl ButtonStyle {
    /// The button that selects `button`, while the list shows `current`: it
    /// stands out if it selects what is shown.
    pub fn for_filter(button: Filter, current: Filter) -> (r: ButtonStyle)
        ensures
            r == Self::of_filter(button, current),
    {
        if button == current {
            ButtonStyle::FilterActive
        } else {
            ButtonStyle::Filter
        }
    }

    /// The look of the button that selects `button` while the list shows
    /// `current`.
    pub open spec fn of_filter(button: Filter, current: Filter) -> ButtonStyle {
        if button == current {
            ButtonStyle::FilterActive
        } else {
            ButtonStyle::Filter
        }
    }
}

/// The looks of a checkbox.
#[derive(Debug, Clone, Copy, PartialEq, Eq, Structural)]
pub enum CheckboxStyle {
    Todo,
}

/// The looks of a text field.
#[derive(Debug, Clone, Copy, PartialEq, Eq, Structural)]
pub enum TextInputStyle {
    Default,
    Focused,
}

impl TextInputStyle {
    /// The field for new tasks while the text typed is meant for `target`: it is
    /// lit while a new task is drafted, which the target 0 stands for.
    pub fn for_draft(target: usize) -> (r: TextInputStyle)
        ensures
            r == Self::of_draft(target as nat),
    {
        if target == 0 {
            TextInputStyle::Focused
        } else {
            TextInputStyle::Default
        }
    }

    /// The look of the field for new tasks while the text typed is meant for
    /// `target`.
    pub open spec fn of_draft(target: nat) -> TextInputStyle {
        if target == 0 {
            TextInputStyle::Focused
        } else {
            TextInputStyle::Default
        }
    }
}

} // verus!
