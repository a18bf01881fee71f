//! Opening a session: the steps asked of the provider of pseudo-terminals, one after the
//! other, and the error that each failure ends in.
//!
//! The provider's work is done by the driver of the plan. The plan says which step is
//! due, takes the provider's reply to it, and says what is due then.

use vstd::prelude::*;
use crate::error::{HandleSide, SessionError};
use crate::size::{grid, PtyDimensions};

verus! {

/// What is due next while a session is opened, or how the opening ended.
#[derive(Debug, PartialEq, Eq)]
pub enum OpenStep {
    /// Allocate a pseudo-terminal of this size.
    AllocatePty { size: PtyDimensions },
    /// Start the command on the pseudo-terminal.
    SpawnCommand,
    /// Ask for the identifier of the started process.
    QueryProcessId,
    /// Get a handle to read the output of the process `id`, apart from the master.
    CloneReader { id: u32 },
    /// Get the handle to write to the process `id`.
    TakeWriter { id: u32 },
    /// Start the task that forwards the output of the session `id`.
    LaunchReader { id: u32 },
    /// Enter the handles of the session `id` into the registry.
    Register { id: u32 },
    /// The session `id` is open: registered, and its output is being forwarded.
    Opened { id: u32 },
    /// The opening failed, and nothing was registered.
    Failed { error: SessionError },
}

/// What the provider answered to the step that was due.
#[derive(Debug, PartialEq, Eq)]
pub enum ProviderReply {
    /// The step was taken.
    Done,
    /// The started process has this identifier.
    ProcessId(u32),
    /// The started process has no identifier.
    NoProcessId,
    /// The step failed, with this diagnostic.
    Failed(String),
}

/// The first step of opening a session on a terminal of `cols` columns and `rows` rows.
pub open spec fn first_step(cols: u16, rows: u16) -> OpenStep {
    OpenStep::AllocatePty { size: grid(cols, rows) }
}

/// What is due after `step` was answered with `reply`.
///
/// A failed allocation, start or handle ends the opening in the error of that step, which
/// carries the provider's diagnostic; any other reply lets the step pass. The identifier
/// that the provider reports is the session's from then on; any reply but an identifier
/// means that the process has none, which ends the opening too: no later call could name
/// the session. Starting the reader and registering cannot fail, whatever the reply. An
/// outcome, once reached, stays.
pub open spec fn next_step(step: OpenStep, reply: ProviderReply) -> OpenStep {
    match step {
        OpenStep::AllocatePty { size } => match reply {
            ProviderReply::Failed(detail) => OpenStep::Failed {
                error: SessionError::PtyAllocation(detail),
            },
            _ => OpenStep::SpawnCommand,
        },
        OpenStep::SpawnCommand => match reply {
            ProviderReply::Failed(detail) => OpenStep::Failed { error: SessionError::Spawn(detail) },
            _ => OpenStep::QueryProcessId,
        },
        OpenStep::QueryProcessId => match reply {
            ProviderReply::ProcessId(id) => OpenStep::CloneReader { id },
            _ => OpenStep::Failed { error: SessionError::MissingProcessId },
        },
        OpenStep::CloneReader { id } => match reply {
            ProviderReply::Failed(detail) => OpenStep::Failed {
                error: SessionError::IoHandle { side: HandleSide::Reader, detail },
            },
            _ => OpenStep::TakeWriter { id },
        },
        OpenStep::TakeWriter { id } => match reply {
            ProviderReply::Failed(detail) => OpenStep::Failed {
                error: SessionError::IoHandle { side: HandleSide::Writer, detail },
            },
            _ => OpenStep::LaunchReader { id },
        },
        OpenStep::LaunchReader { id } => OpenStep::Register { id },
        OpenStep::Register { id } => OpenStep::Opened { id },
        OpenStep::Opened { id } => OpenStep::Opened { id },
        OpenStep::Failed { error } => OpenStep::Failed { error },
    }
}

impl OpenStep {
    /// Whether the opening has ended, well or not.
    pub open spec fn is_outcome(self) -> bool {
        self is Opened || self is Failed
    }

    /// Begins to open a session on a terminal of `cols` columns and `rows` rows.
    pub fn begin(cols: u16, rows: u16) -> (step: OpenStep)
        ensures
            step == first_step(cols, rows),
    {
        OpenStep::AllocatePty { size: PtyDimensions::for_grid(cols, rows) }
    }

    /// Takes the provider's reply to this step and gives what is due next.
    pub fn advance(self, reply: ProviderReply) -> (next: OpenStep)
        ensures
            next == next_step(self, reply),
    {
        match self {
            OpenStep::AllocatePty { size } => match reply {
                ProviderReply::Failed(detail) => OpenStep::Failed {
                    error: SessionError::PtyAllocation(detail),
                },
                _ => OpenStep::SpawnCommand,
            },
            OpenStep::SpawnCommand => match reply {
                ProviderReply::Failed(detail) => OpenStep::Failed {
                    error: SessionError::Spawn(detail),
                },
                _ => OpenStep::QueryProcessId,
            },
            OpenStep::QueryProcessId => match reply {
                ProviderReply::ProcessId(id) => OpenStep::CloneReader { id },
                _ => OpenStep::Failed { error: SessionError::MissingProcessId },
            },
            OpenStep::CloneReader { id } => match reply {
                ProviderReply::Failed(detail) => OpenStep::Failed {
                    error: SessionError::IoHandle { side: HandleSide::Reader, detail },
                },
                _ => OpenStep::TakeWriter { id },
            },
            OpenStep::TakeWriter { id } => match reply {
                ProviderReply::Failed(detail) => OpenStep::Failed {
                    error: SessionError::IoHandle { side: HandleSide::Writer, detail },
                },
                _ => OpenStep::LaunchReader { id },
            },
            OpenStep::LaunchReader { id } => OpenStep::Register { id },
            OpenStep::Register { id } => OpenStep::Opened { id },
            OpenStep::Opened { id } => OpenStep::Opened { id },
            OpenStep::Failed { error } => OpenStep::Failed { error },
        }
    }

    /// How the opening ended: the identifier of the open session, or the error. Nothing
    /// while steps are still due.
    pub fn outcome(self) -> (ended: Option<Result<u32, SessionError>>)
        ensures
            ended == match self {
                OpenStep::Opened { id } => Some(Ok::<u32, SessionError>(id)),
                OpenStep::Failed { error } => Some(Err::<u32, SessionError>(error)),
                _ => None::<Result<u32, SessionError>>,
            },
    {
        match self {
            OpenStep::Opened { id } => Some(Ok(id)),
            OpenStep::Failed { error } => Some(Err(error)),
            _ => None,
        }
    }
}

/// Where the opening stands after `replies` were taken one by one, starting at `step`.
pub open spec fn after_replies(step: OpenStep, replies: Seq<ProviderReply>) -> OpenStep
    decreases replies.len(),
{
    if replies.len() == 0 {
        step
    } else {
        after_replies(next_step(step, replies.first()), replies.drop_first())
    }
}

/// An outcome is final: no reply changes it.
pub proof fn lemma_outcome_is_final(step: OpenStep, replies: Seq<ProviderReply>)
    requires
        step.is_outcome(),
    ensures
        after_replies(step, replies) == step,
    decreases replies.len(),
{
    if replies.len() > 0 {
        lemma_outcome_is_final(step, replies.drop_first());
    }
}

/// A session opens under the identifier that the provider reports for its process, and
/// only when every step before the registration went well.
///
/// Whatever the provider replies: the opening ends in an open session `id` exactly when
/// the pseudo-terminal was allocated, the command started, the provider reported `id`
/// for the process, both handles were had, and the reader was started and the session
/// registered after that.
pub proof fn lemma_opened_under_reported_id(
    cols: u16,
    rows: u16,
    replies: Seq<ProviderReply>,
    id: u32,
)
    ensures
        after_replies(first_step(cols, rows), replies) == (OpenStep::Opened { id }) <==> {
            &&& replies.len() >= 7
            &&& !(replies[0] is Failed)
            &&& !(replies[1] is Failed)
            &&& replies[2] == ProviderReply::ProcessId(id)
            &&& !(replies[3] is Failed)
            &&& !(replies[4] is Failed)
        },
{
    let s0 = first_step(cols, rows);
    let s1 = next_step(s0, replies[0]);
    let s2 = next_step(s1, replies[1]);
    let s3 = next_step(s2, replies[2]);
    let s4 = next_step(s3, replies[3]);
    let s5 = next_step(s4, replies[4]);
    let s6 = next_step(s5, replies[5]);
    let s7 = next_step(s6, replies[6]);
    assert(replies.skip(0) =~= replies);
    if replies.len() >= 0 {
        lemma_reply_taken(s0, replies, 0);
    }
    if replies.len() >= 1 {
        lemma_reply_taken(s1, replies, 1);
    }
    if replies.len() >= 2 {
        lemma_reply_taken(s2, replies, 2);
    }
    if replies.len() >= 3 {
        lemma_reply_taken(s3, replies, 3);
    }
    if replies.len() >= 4 {
        lemma_reply_taken(s4, replies, 4);
    }
    if replies.len() >= 5 {
        lemma_reply_taken(s5, replies, 5);
    }
    if replies.len() >= 6 {
        lemma_reply_taken(s6, replies, 6);
    }
    if replies.len() >= 7 {
        lemma_reply_taken(s7, replies, 7);
    }
}

/// Taking the replies from the `k`-th on is taking the `k`-th, then those after it. Where
/// there is no `k`-th, nothing moves; and an outcome stays whatever follows.
proof fn lemma_reply_taken(step: OpenStep, replies: Seq<ProviderReply>, k: int)
    requires
        0 <= k <= replies.len(),
    ensures
        k < replies.len() ==> after_replies(step, replies.skip(k)) == after_replies(
            next_step(step, replies[k]),
            replies.skip(k + 1),
        ),
        k == replies.len() ==> after_replies(step, replies.skip(k)) == step,
        step.is_outcome() ==> after_replies(step, replies.skip(k)) == step,
{
    if k < replies.len() {
        assert(replies.skip(k).drop_first() =~= replies.skip(k + 1));
    }
    if step.is_outcome() {
        lemma_outcome_is_final(step, replies.skip(k));
    }
}

} // verus!
