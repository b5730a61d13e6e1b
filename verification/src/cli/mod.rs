//! The command-line front end's decisions: terminal mode, slash commands,
//! how events are rendered as plain lines and in the terminal UI, and the
//! checks of the local web front end, the interactive session and the
//! control commands.
pub mod terminal_mode;
pub mod commands;
pub mod format;
pub mod render;
pub mod tui;
pub mod web;
pub mod errors;
pub mod interactive;
pub mod controls;
pub mod stream;
