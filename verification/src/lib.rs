//! The engine of a keyboard-driven task list: a two-list task store, a
//! two-key chord recognizer, a transient message holder and the modal
//! dispatcher that turns key events into changes of the store.

pub mod action_display;
pub mod app;
pub mod handler;
pub mod key_event;
pub mod key_sequencer;
pub mod text;
pub mod todo;
pub mod todo_serializer;
