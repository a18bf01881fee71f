//! The names under which a session's output and its closure are published.

use vstd::prelude::*;
use vstd::string::StringExecFns;
use crate::text::{decimal, with_decimal};

verus! {

/// The name of the event that carries the output of the session `id`: a fixed prefix
/// followed by the identifier in decimal.
pub open spec fn output_event(id: u32) -> Seq<char> {
    "shell-output-"@ + decimal(id as nat)
}

/// The name of the event, shared by all sessions, that tells that a session has closed.
pub open spec fn closed_event() -> Seq<char> {
    "shell_closed"@
}

/// Builds the name of the event that carries the output of the session `id`.
pub fn output_event_name(id: u32) -> (name: String)
    ensures
        name@ == output_event(id),
{
    with_decimal("shell-output-", id)
}

/// Builds the name of the event that tells that a session has closed.
pub fn closed_event_name() -> (name: String)
    ensures
        name@ == closed_event(),
{
    String::from_str("shell_closed")
}

} // verus!
