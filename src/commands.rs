//! The first command-line argument, read as a command.
use vstd::prelude::*;
use crate::text::same_text;

verus! {

/// What the first command-line argument asks for.
#[derive(Debug, Clone, Copy, PartialEq, Eq, Structural)]
pub enum Command {
    Help,
    Version,
    Alias,
    Remote,
    All,
    Invalid,
}

/// The command that an argument names; any other argument is `Invalid`.
pub open spec fn command_of(arg: Seq<char>) -> Command {
    if arg == "help"@ || arg == "--help"@ || arg == "-h"@ {
        Command::Help
    } else if arg == "version"@ || arg == "--version"@ || arg == "-v"@ {
        Command::Version
    } else if arg == "alias"@ {
        Command::Alias
    } else if arg == "remote"@ || arg == "r"@ {
        Command::Remote
    } else if arg == "all"@ || arg == "a"@ {
        Command::All
    } else {
        Command::Invalid
    }
}

impl Command {
    /// Reads a command-line argument.
    pub fn from(arg: &str) -> (r: Command)
        ensures
            r == command_of(arg@),
    {
        if same_text(arg, "help") || same_text(arg, "--help") || same_text(arg, "-h") {
            Command::Help
        } else if same_text(arg, "version") || same_text(arg, "--version") || same_text(arg, "-v") {
            Command::Version
        } else if same_text(arg, "alias") {
            Command::Alias
        } else if same_text(arg, "remote") || same_text(arg, "r") {
            Command::Remote
        } else if same_text(arg, "all") || same_text(arg, "a") {
            Command::All
        } else {
            Command::Invalid
        }
    }
}

} // verus!
