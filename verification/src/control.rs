//! The control surface: the commands that an operator types, and the message
//! that each of them puts on the container's queue.
use vstd::prelude::*;
use crate::messages::container_message::ContainerMessage;
use crate::messages::directives::{ComponentDirective, ContainerDirective};

verus! {

/// What one line of operator input asks for.
#[derive(Debug, Clone, Copy, PartialEq, Eq, Structural)]
pub enum Command {
    /// `h`: show the commands.
    Help,
    /// `start`: set the component to active.
    Start,
    /// `suspend`: set the component to dormant.
    Suspend,
    /// `s`: shut the container down.
    Shutdown,
    /// `s.`: shut the container network down.
    SystemShutdown,
    /// Anything else.
    Unknown,
}

/// The command that a line of input stands for, the line taken as it is,
/// without the white space around it.
pub open spec fn command_of(line: Seq<char>) -> Command {
    if line == "h"@ {
        Command::Help
    } else if line == "start"@ {
        Command::Start
    } else if line == "suspend"@ {
        Command::Suspend
    } else if line == "s"@ {
        Command::Shutdown
    } else if line == "s."@ {
        Command::SystemShutdown
    } else {
        Command::Unknown
    }
}

/// Whether two strings hold the same characters.
fn same_text(left: &str, right: &str) -> (r: bool)
    ensures
        r == (left@ == right@),
{
    left.to_owned() == right.to_owned()
}

/// Reads one line of operator input, already trimmed.
pub fn parse_command(line: &str) -> (r: Command)
    ensures
        r == command_of(line@),
{
    if same_text(line, "h") {
        Command::Help
    } else if same_text(line, "start") {
        Command::Start
    } else if same_text(line, "suspend") {
        Command::Suspend
    } else if same_text(line, "s") {
        Command::Shutdown
    } else if same_text(line, "s.") {
        Command::SystemShutdown
    } else {
        Command::Unknown
    }
}

impl Command {
    /// The directive that the command sends, where it sends one.
    pub open spec fn spec_message(self) -> Option<ContainerMessage> {
        match self {
            Command::Start => Some(
                ContainerMessage::ComponentDirectiveMsg(ComponentDirective::SetToActive),
            ),
            Command::Suspend => Some(
                ContainerMessage::ComponentDirectiveMsg(ComponentDirective::SetToDormant),
            ),
            Command::Shutdown => Some(
                ContainerMessage::ContainerDirectiveMsg(ContainerDirective::Shutdown),
            ),
            Command::SystemShutdown => Some(
                ContainerMessage::ContainerDirectiveMsg(ContainerDirective::SystemShutdown),
            ),
            Command::Help => None,
            Command::Unknown => None,
        }
    }

    /// The message that the command puts on the container's queue: a
    /// directive for the four commands that act, and nothing for the help
    /// and for input that is no command.
    pub fn message(self) -> (r: Option<ContainerMessage>)
        ensures
            r == self.spec_message(),
    {
        match self {
            Command::Start => Some(
                ContainerMessage::ComponentDirectiveMsg(ComponentDirective::SetToActive),
            ),
            Command::Suspend => Some(
                ContainerMessage::ComponentDirectiveMsg(ComponentDirective::SetToDormant),
            ),
            Command::Shutdown => Some(
                ContainerMessage::ContainerDirectiveMsg(ContainerDirective::Shutdown),
            ),
            Command::SystemShutdown => Some(
                ContainerMessage::ContainerDirectiveMsg(ContainerDirective::SystemShutdown),
            ),
            Command::Help => None,
            Command::Unknown => None,
        }
    }
}

} // verus!
