//! Commands of the operator's console.

use vstd::prelude::*;
use crate::text::text_eq;

verus! {

/// The word that shuts the server down.
pub const COMMAND_STOP: &'static str = "stop";

/// The word that is answered with a greeting in the log.
pub const COMMAND_HUAJI: &'static str = "huaji";

/// What a line typed at the console asks for.
#[derive(Clone, Copy, Debug, PartialEq, Eq, Structural)]
pub enum Command {
    /// Shut the server down.
    Stop,
    /// Write a greeting to the log.
    Huaji,
    /// The line is empty: nothing is asked for.
    Nothing,
    /// The line is no command.
    Unknown,
}

/// The command that a line stands for, once the blanks around it are gone.
pub open spec fn command_of(line: Seq<char>) -> Command {
    if line == COMMAND_STOP@ {
        Command::Stop
    } else if line == COMMAND_HUAJI@ {
        Command::Huaji
    } else if line.len() == 0 {
        Command::Nothing
    } else {
        Command::Unknown
    }
}

/// Reads a line of the console, without the blanks around it.
pub fn parse_command(line: &str) -> (command: Command)
    ensures
        command == command_of(line@),
{
    if text_eq(line, COMMAND_STOP) {
        Command::Stop
    } else if text_eq(line, COMMAND_HUAJI) {
        Command::Huaji
    } else if line.is_empty() {
        Command::Nothing
    } else {
        Command::Unknown
    }
}

} // verus!
