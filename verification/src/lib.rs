//! The logic of a branch-aware logging tool with an embedded terminal
//! panel, apart from what it reads and writes: the panel over a terminal
//! emulator with its viewport, the encoding of keys for the shell, the
//! state of the user interface and what each key does to it, the text
//! fields and lists on screen, the report of a command runner, the log of
//! a branch, and the detection of speech in a recording.

pub mod app_state;
pub mod command;
pub mod filter;
pub mod git;
pub mod keys;
pub mod layout;
pub mod line_edit;
pub mod log;
pub mod model;
pub mod notice;
pub mod pty_terminal;
pub mod relay;
pub mod screen;
pub mod spans;
pub mod terminal;
pub mod text;
pub mod ui;
pub mod vad;
