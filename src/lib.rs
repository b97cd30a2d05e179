//! Interaction core of a terminal chat client: a cursor-managed text field,
//! selectable lists, the conversation model and the navigation state machine.

pub mod cursor;
pub mod text;
pub mod input;
pub mod stateful_list;
pub mod models;
pub mod state;
