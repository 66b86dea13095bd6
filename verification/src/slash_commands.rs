//! Slash-command dispatch: which handler a command name selects.

use vstd::prelude::*;

verus! {

/// The error a command dispatch can produce.
#[derive(Clone, Copy, PartialEq, Eq, Structural, Debug)]
pub enum SlashCommandError {
    CannotProcessUnknownCommand,
}

impl SlashCommandError {
    /// The human-readable description of the error.
    pub fn message(&self) -> (s: String)
        ensures
            s@ == "Cannot process unknown command"@,
    {
        String::from_str("Cannot process unknown command")
    }
}

/// The commands the dispatcher knows.
#[derive(Clone, Copy, PartialEq, Eq, Structural, Debug)]
pub enum CommandKind {
    Ping,
    Poll,
    PollEmoji,
}

/// The handler a command name selects: `ping`, `poll` and `poll_emoji`
/// are known; any other name cannot be processed.
pub open spec fn spec_classify_command(name: Seq<char>) -> Result<
    CommandKind,
    SlashCommandError,
> {
    if name == "ping"@ {
        Ok(CommandKind::Ping)
    } else if name == "poll"@ {
        Ok(CommandKind::Poll)
    } else if name == "poll_emoji"@ {
        Ok(CommandKind::PollEmoji)
    } else {
        Err(SlashCommandError::CannotProcessUnknownCommand)
    }
}

/// Selects the handler for a command name.
pub fn classify_command(name: &str) -> (r: Result<CommandKind, SlashCommandError>)
    ensures
        r == spec_classify_command(name@),
{
    if crate::text::str_eq(name, "ping") {
        Ok(CommandKind::Ping)
    } else if crate::text::str_eq(name, "poll") {
        Ok(CommandKind::Poll)
    } else if crate::text::str_eq(name, "poll_emoji") {
        Ok(CommandKind::PollEmoji)
    } else {
        Err(SlashCommandError::CannotProcessUnknownCommand)
    }
}

} // verus!
