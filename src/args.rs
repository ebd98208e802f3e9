use vstd::prelude::*;

verus! {

/// The command line: one command per invocation.
#[derive(Debug, Clone)]
pub struct Args {
    pub command: Commands,
}

/// The four commands.
#[derive(Debug, Clone)]
pub enum Commands {
    /// Import the named source.
    Import { target: String },
    /// Show today's events.
    Today {},
    /// Show tomorrow's events.
    Tomorrow {},
    /// Show the next event, compactly when `xmobar` is set.
    Next { xmobar: bool },
}

} // verus!
