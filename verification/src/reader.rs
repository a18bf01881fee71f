//! The task that forwards one session's output: what it asks of its driver after each
//! thing that happens to it, and what holds of everything it asks for over its life.
//!
//! The task itself neither reads nor publishes. Its driver does, and tells the task
//! what came of it; the task answers with the next thing to do.

use vstd::prelude::*;
use vstd::utf8::{decode_utf8, encode_utf8, valid_utf8, decode_utf8_encode_utf8};
use crate::events::{closed_event, closed_event_name, output_event, output_event_name};
use crate::text::{chunk_text, decode_chunk};

verus! {

/// The most bytes that one read of a session's output asks for.
pub const READ_CHUNK_SIZE: usize = 4096;

/// Where a reader task stands.
#[derive(Clone, Copy, Debug, PartialEq, Eq, Structural)]
pub enum ReaderState {
    /// Running, and waiting for the outcome of a read.
    Reading,
    /// Running, and waiting to hear whether a chunk of output was delivered.
    Publishing,
    /// The stream has ended or failed; the closure of the session is being announced.
    Draining,
    /// Nothing is left to do.
    Terminated,
}

impl ReaderState {
    /// Whether the task still forwards output.
    pub open spec fn is_running(self) -> bool {
        self is Reading || self is Publishing
    }
}

/// What the driver reports to the task.
#[derive(Debug, PartialEq, Eq)]
pub enum ReaderEvent {
    /// A read returned these bytes. No bytes at all is the end of the stream.
    Read(Vec<u8>),
    /// A read failed.
    ReadFailed,
    /// The event last asked for reached the sink.
    Delivered,
    /// The sink refused the event last asked for.
    DeliveryFailed,
}

/// A [`ReaderEvent`] as a mathematical value.
pub enum ReaderEventView {
    Read(Seq<u8>),
    ReadFailed,
    Delivered,
    DeliveryFailed,
}

impl View for ReaderEvent {
    type V = ReaderEventView;

    open spec fn view(&self) -> ReaderEventView {
        match self {
            ReaderEvent::Read(bytes) => ReaderEventView::Read(bytes@),
            ReaderEvent::ReadFailed => ReaderEventView::ReadFailed,
            ReaderEvent::Delivered => ReaderEventView::Delivered,
            ReaderEvent::DeliveryFailed => ReaderEventView::DeliveryFailed,
        }
    }
}

/// What the task asks its driver to do next.
#[derive(Debug, PartialEq, Eq)]
pub enum ReaderAction {
    /// Read the next chunk of the session's output.
    Read,
    /// Publish `text` under the event name `event`.
    Publish { event: String, text: String },
    /// Publish the identifier `id` under the event name `event`: the session has closed.
    AnnounceClosed { event: String, id: u32 },
    /// Stop: the task is over.
    Stop,
}

/// A [`ReaderAction`] as a mathematical value.
pub enum ReaderActionView {
    Read,
    Publish { event: Seq<char>, text: Seq<char> },
    AnnounceClosed { event: Seq<char>, id: u32 },
    Stop,
}

impl View for ReaderAction {
    type V = ReaderActionView;

    open spec fn view(&self) -> ReaderActionView {
        match self {
            ReaderAction::Read => ReaderActionView::Read,
            ReaderAction::Publish { event, text } => ReaderActionView::Publish {
                event: event@,
                text: text@,
            },
            ReaderAction::AnnounceClosed { event, id } => ReaderActionView::AnnounceClosed {
                event: event@,
                id: *id,
            },
            ReaderAction::Stop => ReaderActionView::Stop,
        }
    }
}

/// The one way out of running: the task starts draining and announces, under the name
/// shared by all sessions, that the session `id` has closed.
pub open spec fn closing(id: u32) -> (ReaderState, ReaderActionView) {
    (ReaderState::Draining, ReaderActionView::AnnounceClosed { event: closed_event(), id })
}

/// The state that the task of session `id` moves to from `state` on `event`, and what it
/// asks for.
///
/// While reading: no bytes is the end of the stream and a failed read is fatal, both
/// close; a chunk that is UTF-8 as a whole is published as text under the session's own
/// event name; any other chunk is dropped whole and the next one is read. While
/// publishing: a delivered chunk is followed by the next read, a refused one closes.
/// An event that does not answer what was asked for closes too. Once draining, whatever
/// comes of the announcement, the task is over and stays so.
pub open spec fn step(id: u32, state: ReaderState, event: ReaderEventView) -> (
    ReaderState,
    ReaderActionView,
) {
    match state {
        ReaderState::Reading => match event {
            ReaderEventView::Read(bytes) => if bytes.len() == 0 {
                closing(id)
            } else {
                match chunk_text(bytes) {
                    Some(text) => (
                        ReaderState::Publishing,
                        ReaderActionView::Publish { event: output_event(id), text },
                    ),
                    None => (ReaderState::Reading, ReaderActionView::Read),
                }
            },
            _ => closing(id),
        },
        ReaderState::Publishing => match event {
            ReaderEventView::Delivered => (ReaderState::Reading, ReaderActionView::Read),
            _ => closing(id),
        },
        ReaderState::Draining => (ReaderState::Terminated, ReaderActionView::Stop),
        ReaderState::Terminated => (ReaderState::Terminated, ReaderActionView::Stop),
    }
}

/// The reader task of one session.
#[derive(Debug)]
pub struct ReaderTask {
    id: u32,
    state: ReaderState,
}

impl ReaderTask {
    /// The session whose output the task forwards.
    pub closed spec fn spec_id(&self) -> u32 {
        self.id
    }

    /// Where the task stands.
    pub closed spec fn spec_state(&self) -> ReaderState {
        self.state
    }

    /// The task of session `id`, waiting for the outcome of a first read: its driver
    /// begins by reading.
    pub fn new(id: u32) -> (task: ReaderTask)
        ensures
            task.id() == id,
            task.state() == ReaderState::Reading,
    {
        ReaderTask { id, state: ReaderState::Reading }
    }

    /// The session whose output the task forwards.
    #[verifier::when_used_as_spec(spec_id)]
    pub fn id(&self) -> (id: u32)
        ensures
            id == self.spec_id(),
    {
        self.id
    }

    /// Where the task stands.
    #[verifier::when_used_as_spec(spec_state)]
    pub fn state(&self) -> (state: ReaderState)
        ensures
            state == self.spec_state(),
    {
        self.state
    }

    /// Takes in what the driver reports and answers with what to do next.
    pub fn step(&mut self, event: ReaderEvent) -> (action: ReaderAction)
        ensures
            final(self).id() == old(self).id(),
            (final(self).state(), action@) == step(old(self).id(), old(self).state(), event@),
    {
        match self.state {
            ReaderState::Reading => match event {
                ReaderEvent::Read(bytes) => {
                    if bytes.len() == 0 {
                        self.close()
                    } else {
                        match decode_chunk(bytes.as_slice()) {
                            Some(text) => {
                                self.state = ReaderState::Publishing;
                                ReaderAction::Publish { event: output_event_name(self.id), text }
                            },
                            None => ReaderAction::Read,
                        }
                    }
                },
                _ => self.close(),
            },
            ReaderState::Publishing => match event {
                ReaderEvent::Delivered => {
                    self.state = ReaderState::Reading;
                    ReaderAction::Read
                },
                _ => self.close(),
            },
            ReaderState::Draining => {
                self.state = ReaderState::Terminated;
                ReaderAction::Stop
            },
            ReaderState::Terminated => ReaderAction::Stop,
        }
    }

    /// Leaves the running states and asks for the closure to be announced.
    fn close(&mut self) -> (action: ReaderAction)
        ensures
            final(self).id() == old(self).id(),
            (final(self).state(), action@) == closing(old(self).id()),
    {
        self.state = ReaderState::Draining;
        ReaderAction::AnnounceClosed { event: closed_event_name(), id: self.id }
    }
}

/// The state of the task of session `id` after it took in `events` one by one from
/// `state`, with the actions it asked for, in order.
pub open spec fn run(id: u32, state: ReaderState, events: Seq<ReaderEventView>) -> (
    ReaderState,
    Seq<ReaderActionView>,
)
    decreases events.len(),
{
    if events.len() == 0 {
        (state, Seq::empty())
    } else {
        let (before, asked) = run(id, state, events.drop_last());
        let (after, action) = step(id, before, events.last());
        (after, asked.push(action))
    }
}

/// How many of `actions` announce a closure.
pub open spec fn closures_announced(actions: Seq<ReaderActionView>) -> nat
    decreases actions.len(),
{
    if actions.len() == 0 {
        0
    } else if actions.last() is AnnounceClosed {
        closures_announced(actions.drop_last()) + 1
    } else {
        closures_announced(actions.drop_last())
    }
}

/// The bytes of all the text that `actions` publish, in order.
pub open spec fn published_bytes(actions: Seq<ReaderActionView>) -> Seq<u8>
    decreases actions.len(),
{
    if actions.len() == 0 {
        Seq::empty()
    } else if let ReaderActionView::Publish { text, .. } = actions.last() {
        published_bytes(actions.drop_last()) + encode_utf8(text)
    } else {
        published_bytes(actions.drop_last())
    }
}

/// `chunks` put end to end.
pub open spec fn joined(chunks: Seq<Seq<u8>>) -> Seq<u8>
    decreases chunks.len(),
{
    if chunks.len() == 0 {
        Seq::empty()
    } else {
        joined(chunks.drop_last()) + chunks.last()
    }
}

/// What a driver reports while all goes well: each of `chunks` read, then delivered.
pub open spec fn smooth_reports(chunks: Seq<Seq<u8>>) -> Seq<ReaderEventView>
    decreases chunks.len(),
{
    if chunks.len() == 0 {
        Seq::empty()
    } else {
        smooth_reports(chunks.drop_last()).push(ReaderEventView::Read(chunks.last())).push(
            ReaderEventView::Delivered,
        )
    }
}

/// The closure of a session is announced exactly once, and names the session.
///
/// Whatever the driver reports, and in whatever order: as long as the task runs it has
/// announced nothing, from the moment it has left the running states it has announced
/// the closure once and never does again, and every announcement it made carries the
/// session's identifier under the event name shared by all sessions.
pub proof fn lemma_closure_announced_once(id: u32, events: Seq<ReaderEventView>)
    ensures
        ({
            let (state, asked) = run(id, ReaderState::Reading, events);
            &&& asked.len() == events.len()
            &&& closures_announced(asked) == if state.is_running() {
                0nat
            } else {
                1nat
            }
            &&& forall|i: int|
                0 <= i < asked.len() && #[trigger] asked[i] is AnnounceClosed ==> asked[i]
                    == ReaderActionView::AnnounceClosed { event: closed_event(), id }
        }),
    decreases events.len(),
{
    if events.len() > 0 {
        lemma_closure_announced_once(id, events.drop_last());
        let (before, asked) = run(id, ReaderState::Reading, events.drop_last());
        let (after, action) = step(id, before, events.last());
        assert(asked.push(action).drop_last() =~= asked);
    }
}

/// A task that has stopped running never runs again, and asks for nothing but to stop
/// once its announcement is out.
pub proof fn lemma_termination_is_final(id: u32, state: ReaderState, event: ReaderEventView)
    requires
        !state.is_running(),
    ensures
        step(id, state, event) == (ReaderState::Terminated, ReaderActionView::Stop),
{
}

/// Output that is valid text reaches the sink whole: nothing lost, nothing twice.
///
/// Where every chunk read is non-empty and UTF-8 as a whole, and the sink takes each
/// event, the task goes on reading, everything it publishes goes out under the session's
/// own event name, and the published text, put end to end, has exactly the bytes that
/// were read.
pub proof fn lemma_valid_output_published_whole(id: u32, chunks: Seq<Seq<u8>>)
    requires
        forall|i: int| 0 <= i < chunks.len() ==> (#[trigger] chunks[i]).len() > 0 && valid_utf8(
            chunks[i],
        ),
    ensures
        ({
            let (state, asked) = run(id, ReaderState::Reading, smooth_reports(chunks));
            &&& state == ReaderState::Reading
            &&& published_bytes(asked) == joined(chunks)
            &&& closures_announced(asked) == 0
            &&& forall|i: int|
                0 <= i < asked.len() && #[trigger] asked[i] is Publish ==> asked[i]->Publish_event
                    == output_event(id)
        }),
    decreases chunks.len(),
{
    if chunks.len() > 0 {
        let earlier = chunks.drop_last();
        let chunk = chunks.last();
        lemma_valid_output_published_whole(id, earlier);
        let reports = smooth_reports(chunks);
        let read = smooth_reports(earlier).push(ReaderEventView::Read(chunk));
        assert(reports.drop_last() =~= read);
        assert(read.drop_last() =~= smooth_reports(earlier));
        let (s0, a0) = run(id, ReaderState::Reading, smooth_reports(earlier));
        let (s1, act1) = step(id, s0, ReaderEventView::Read(chunk));
        let a1 = a0.push(act1);
        assert(run(id, ReaderState::Reading, read) == (s1, a1));
        let (s2, act2) = step(id, s1, ReaderEventView::Delivered);
        let a2 = a1.push(act2);
        assert(run(id, ReaderState::Reading, reports) == (s2, a2));
        assert(a1.drop_last() =~= a0);
        assert(a2.drop_last() =~= a1);
        decode_utf8_encode_utf8(chunk);
        assert(act1 == ReaderActionView::Publish {
            event: output_event(id),
            text: decode_utf8(chunk),
        });
        assert(published_bytes(a1) == published_bytes(a0) + chunk);
        assert(published_bytes(a2) == published_bytes(a1));
    }
    lemma_closure_announced_once(id, smooth_reports(chunks));
}

} // verus!
