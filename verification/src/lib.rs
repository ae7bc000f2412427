//! Core of a terminal-based modal text editor: the editor state, the modal
//! input state machine that turns key presses into edits and mode changes,
//! the text serialization used to load and save files, and the computation
//! of the drawing operations that keep the screen in step with the buffer.
//!
//! Terminal I/O, the asynchronous event source, and file access live outside
//! this crate; everything here works on plain values and is verified.

pub mod input;
pub mod laws;
pub mod state;
pub mod text;
pub mod ui;
