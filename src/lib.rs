//! A small modal line editor: a text buffer of rows, a focus position,
//! a viewport that maps the focus to a character grid, and the key-driven
//! state machine that edits the buffer.
pub mod row;
pub mod mode;
pub mod escape;
pub mod view;
pub mod command;
pub mod model;
pub mod editor;
pub mod laws;
