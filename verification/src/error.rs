//! What can go wrong in a session.

use vstd::prelude::*;
use vstd::string::*;

use crate::tocker::Moment;

verus! {

/// The failures of a session. All but the last leave the session running.
#[derive(Clone, Copy, Debug, PartialEq, Eq, Structural)]
pub enum TockerError {
    /// The key is bound to nothing at the moment at which it was pressed.
    UnboundKey(Moment),
    /// The command is not one of those of the kind, or has no target type.
    NotAuthorized,
    /// The event was no key press, or the key was asked about as what it is
    /// not: as a command while targets were being chosen, or as an action of
    /// the list while it is a global command.
    InvalidEventSource,
    /// The user gave the cycle up.
    UserCancelled,
    /// The command ran and failed, or its output was no text.
    SubprocessFailure,
    /// The daemon did not answer when the session was about to start.
    DaemonUnreachable,
}

impl TockerError {
    /// The text of the failure, as a `&str`.
    pub open spec fn text(self) -> &'static str {
        match self {
            TockerError::UnboundKey(Moment::TARGET) => "Invalid key input for selection",
            TockerError::UnboundKey(_) => "Press only the available keys",
            TockerError::NotAuthorized => "Not valid inputs",
            TockerError::InvalidEventSource => "Press a valid key",
            TockerError::UserCancelled => "User canceled the action",
            TockerError::SubprocessFailure => "Command failed",
            TockerError::DaemonUnreachable => "Failed to contact deamon",
        }
    }

    /// The line that tells the user of the failure.
    pub fn message(&self) -> (line: String)
        ensures
            line@ == self.text()@,
    {
        match self {
            TockerError::UnboundKey(Moment::TARGET) => String::from_str(
                "Invalid key input for selection",
            ),
            TockerError::UnboundKey(_) => String::from_str("Press only the available keys"),
            TockerError::NotAuthorized => String::from_str("Not valid inputs"),
            TockerError::InvalidEventSource => String::from_str("Press a valid key"),
            TockerError::UserCancelled => String::from_str("User canceled the action"),
            TockerError::SubprocessFailure => String::from_str("Command failed"),
            TockerError::DaemonUnreachable => String::from_str("Failed to contact deamon"),
        }
    }

    /// Whether the session goes on after the failure.
    pub fn is_recoverable(&self) -> (b: bool)
        ensures
            b == !(self is DaemonUnreachable),
    {
        match self {
            TockerError::DaemonUnreachable => false,
            _ => true,
        }
    }
}

} // verus!
