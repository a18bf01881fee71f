//! The ways in which a session operation fails, and the text shown for each.

use vstd::prelude::*;
use vstd::string::StringExecFns;
use crate::text::{decimal, with_decimal, with_detail};

verus! {

/// Which of a pseudo-terminal's two stream handles could not be had.
#[derive(Clone, Copy, Debug, PartialEq, Eq, Structural)]
pub enum HandleSide {
    /// The handle from which a session's output is read.
    Reader,
    /// The handle through which a session's input is written.
    Writer,
}

/// A failed session operation. Where the provider of pseudo-terminals gave a diagnostic,
/// the error carries its text unchanged.
#[derive(Debug, PartialEq, Eq)]
pub enum SessionError {
    /// No pseudo-terminal could be allocated.
    PtyAllocation(String),
    /// The command could not be started on the pseudo-terminal.
    Spawn(String),
    /// The started process has no identifier, so nothing could address its session.
    MissingProcessId,
    /// A stream handle of the pseudo-terminal could not be had.
    IoHandle { side: HandleSide, detail: String },
    /// No session is registered under the identifier.
    SessionNotFound(u32),
    /// The payload could not be written to the session in full.
    Write(String),
    /// The pseudo-terminal refused its new size.
    Resize(String),
}

impl SessionError {
    /// The text shown to a caller for this error.
    pub open spec fn message_text(self) -> Seq<char> {
        match self {
            SessionError::PtyAllocation(detail) => "Failed to open pty: "@ + detail@,
            SessionError::Spawn(detail) => "Failed to spawn shell: "@ + detail@,
            SessionError::MissingProcessId => "Failed to get process ID"@,
            SessionError::IoHandle { side: HandleSide::Reader, detail } => "Failed to clone reader: "@
                + detail@,
            SessionError::IoHandle { side: HandleSide::Writer, detail } => "Failed to take writer: "@
                + detail@,
            SessionError::SessionNotFound(id) => "No shell found with PID "@ + decimal(id as nat),
            SessionError::Write(detail) => "Failed to write to shell: "@ + detail@,
            SessionError::Resize(detail) => "Failed to resize shell: "@ + detail@,
        }
    }

    /// Renders the error as the text shown to a caller.
    pub fn message(&self) -> (text: String)
        ensures
            text@ == self.message_text(),
    {
        match self {
            SessionError::PtyAllocation(detail) => with_detail("Failed to open pty: ", detail.as_str()),
            SessionError::Spawn(detail) => with_detail("Failed to spawn shell: ", detail.as_str()),
            SessionError::MissingProcessId => String::from_str("Failed to get process ID"),
            SessionError::IoHandle { side: HandleSide::Reader, detail } => with_detail(
                "Failed to clone reader: ",
                detail.as_str(),
            ),
            SessionError::IoHandle { side: HandleSide::Writer, detail } => with_detail(
                "Failed to take writer: ",
                detail.as_str(),
            ),
            SessionError::SessionNotFound(id) => with_decimal("No shell found with PID ", *id),
            SessionError::Write(detail) => with_detail("Failed to write to shell: ", detail.as_str()),
            SessionError::Resize(detail) => with_detail("Failed to resize shell: ", detail.as_str()),
        }
    }
}

} // verus!
