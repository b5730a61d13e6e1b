//! Whether the interactive front end runs as a full-screen terminal UI or as
//! plain lines.
use vstd::prelude::*;

verus! {

#[derive(Clone, Copy, Debug, PartialEq, Eq, Structural)]
pub enum ResolvedTerminalMode {
    Plain,
    Tui,
}

/// What the user asked for and what the standard streams are.
#[derive(Clone, Copy, Debug, PartialEq, Eq, Structural)]
pub struct TerminalModeRequest {
    pub tui: bool,
    pub no_tui: bool,
    pub stdin_is_terminal: bool,
    pub stdout_is_terminal: bool,
}

impl TerminalModeRequest {
    /// The terminal UI runs when it is not refused and both input and output
    /// are terminals; otherwise plain lines.
    pub fn resolve(self) -> (r: ResolvedTerminalMode)
        ensures
            r == (if !self.no_tui && self.stdin_is_terminal && self.stdout_is_terminal {
                ResolvedTerminalMode::Tui
            } else {
                ResolvedTerminalMode::Plain
            }),
    {
        if self.no_tui {
            return ResolvedTerminalMode::Plain;
        }
        if self.stdin_is_terminal && self.stdout_is_terminal {
            return ResolvedTerminalMode::Tui;
        }
        ResolvedTerminalMode::Plain
    }
}

} // verus!
