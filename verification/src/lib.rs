//! Core of a modal (vim-style) text editor: a deterministic state machine
//! that interprets a stream of key events as edits on a text buffer.
//!
//! The library holds no terminal or rendering state. It owns the editing
//! mode, the partially-typed command (count, register, operator, multi-key
//! prefix), and a plain text buffer with cursor, selection anchor and
//! registers. One event at a time is dispatched against the current mode;
//! the outcome is a `Transition` that the orchestrator (`VimState`) folds
//! into the next state.

pub mod buffer;
pub mod engine;
pub mod input;
pub mod laws;
pub mod mode;
pub mod motion;
pub mod pending;
pub mod state;
