//! What the window shows, decided from the state.

pub mod style;
pub mod view;
