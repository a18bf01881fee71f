//! The table of live sessions: which identifiers are in use, and the handles each one owns.
//!
//! Every operation takes the table by reference for as long as it acts on a session, so a
//! caller that guards the table with one lock holds that lock over the whole action.

use std::collections::hash_map::Entry;
use std::collections::HashMap;
use vstd::prelude::*;
use crate::error::SessionError;

verus! {

broadcast use vstd::std_specs::hash::group_hash_axioms;

/// What a live session owns: the control side of its pseudo-terminal and the stream
/// through which input reaches its process.
#[derive(Debug)]
pub struct SessionHandle<M, W> {
    pub master: M,
    pub writer: W,
}

/// The live sessions, each under the identifier of its process. The registry is the sole
/// owner of every handle, and holds at most one handle per identifier.
pub struct SessionRegistry<M, W> {
    sessions: HashMap<u32, SessionHandle<M, W>>,
}

impl<M, W> View for SessionRegistry<M, W> {
    type V = Map<u32, SessionHandle<M, W>>;

    closed spec fn view(&self) -> Map<u32, SessionHandle<M, W>> {
        self.sessions@
    }
}

/// What asking `sessions` for the session `id` gives: its handle, or the error that says
/// that no such session is registered.
pub open spec fn find<M, W>(sessions: Map<u32, SessionHandle<M, W>>, id: u32) -> Result<
    SessionHandle<M, W>,
    SessionError,
> {
    if sessions.contains_key(id) {
        Ok(sessions[id])
    } else {
        Err(SessionError::SessionNotFound(id))
    }
}

/// The sessions on record once those of `opened` were registered on top of `sessions`,
/// in order, each under the identifier it was opened with.
pub open spec fn after_opens<M, W>(
    sessions: Map<u32, SessionHandle<M, W>>,
    opened: Seq<(u32, SessionHandle<M, W>)>,
) -> Map<u32, SessionHandle<M, W>>
    decreases opened.len(),
{
    if opened.len() == 0 {
        sessions
    } else {
        after_opens(sessions, opened.drop_last()).insert(opened.last().0, opened.last().1)
    }
}

impl<M, W> SessionRegistry<M, W> {
    /// A registry without sessions.
    pub fn new() -> (registry: Self)
        ensures
            registry@ == Map::<u32, SessionHandle<M, W>>::empty(),
    {
        SessionRegistry { sessions: HashMap::new() }
    }

    /// Registers a session under `id`. A handle that was registered under `id` before is
    /// released: the identifier then stands for the new session alone.
    pub fn register(&mut self, id: u32, handle: SessionHandle<M, W>)
        ensures
            final(self)@ == old(self)@.insert(id, handle),
    {
        let _ = self.sessions.insert(id, handle);
    }

    /// The control side of the session `id`, to act on while the registry stays borrowed.
    /// Nothing in the registry changes.
    pub fn master_of(&self, id: u32) -> (found: Result<&M, SessionError>)
        ensures
            match find(self@, id) {
                Ok(handle) => found == Ok::<&M, SessionError>(&handle.master),
                Err(error) => found == Err::<&M, SessionError>(error),
            },
    {
        match self.sessions.get(&id) {
            Some(handle) => Ok(&handle.master),
            None => Err(SessionError::SessionNotFound(id)),
        }
    }

    /// The writer of the session `id`, held exclusively for as long as the borrow lasts.
    ///
    /// Where no session is registered under `id`, the registry is left as it was. Where
    /// one is, only what the caller does to its writer changes: the same sessions stay
    /// registered, and the session keeps its control side.
    pub fn writer_of(&mut self, id: u32) -> (found: Result<&mut W, SessionError>)
        ensures
            match find(old(self)@, id) {
                Ok(handle) => {
                    &&& found matches Ok(writer)
                    &&& *writer == handle.writer
                    &&& final(self)@ == old(self)@.insert(
                        id,
                        SessionHandle { master: handle.master, writer: *final(writer) },
                    )
                },
                Err(error) => {
                    &&& found matches Err(reported)
                    &&& reported == error
                    &&& final(self)@ == old(self)@
                },
            },
    {
        match self.sessions.entry(id) {
            Entry::Occupied(occupied) => {
                let handle = occupied.into_mut();
                Ok(&mut handle.writer)
            },
            Entry::Vacant(_) => Err(SessionError::SessionNotFound(id)),
        }
    }

    /// Closes the session `id`: takes it off the registry and releases its handles.
    pub fn close(&mut self, id: u32) -> (closed: Result<(), SessionError>)
        ensures
            closed == match find(old(self)@, id) {
                Ok(_) => Ok::<(), SessionError>(()),
                Err(error) => Err::<(), SessionError>(error),
            },
            final(self)@ == old(self)@.remove(id),
    {
        match self.sessions.remove(&id) {
            Some(_) => Ok(()),
            None => Err(SessionError::SessionNotFound(id)),
        }
    }

    /// Whether a session is registered under `id`.
    pub fn contains(&self, id: u32) -> (found: bool)
        ensures
            found == self@.contains_key(id),
    {
        self.sessions.contains_key(&id)
    }

    /// The number of registered sessions.
    pub fn len(&self) -> (count: usize)
        ensures
            count == self@.len(),
            self@.dom().finite(),
    {
        self.sessions.len()
    }
}

impl<M, W> Default for SessionRegistry<M, W> {
    /// A registry without sessions.
    fn default() -> (registry: Self)
        ensures
            registry@ == Map::<u32, SessionHandle<M, W>>::empty(),
    {
        SessionRegistry::new()
    }
}

/// What a write to a session comes to, given what its writer made of the payload: done
/// where the whole payload went through, and else the error that carries the writer's
/// diagnostic. The session stays registered either way.
pub fn write_outcome(written: Result<(), String>) -> (outcome: Result<(), SessionError>)
    ensures
        outcome == match written {
            Ok(_) => Ok::<(), SessionError>(()),
            Err(detail) => Err::<(), SessionError>(SessionError::Write(detail)),
        },
{
    match written {
        Ok(_) => Ok(()),
        Err(detail) => Err(SessionError::Write(detail)),
    }
}

/// What a resize of a session comes to, given what its pseudo-terminal made of the new
/// size: done, or the error that carries the pseudo-terminal's diagnostic.
pub fn resize_outcome(resized: Result<(), String>) -> (outcome: Result<(), SessionError>)
    ensures
        outcome == match resized {
            Ok(_) => Ok::<(), SessionError>(()),
            Err(detail) => Err::<(), SessionError>(SessionError::Resize(detail)),
        },
{
    match resized {
        Ok(_) => Ok(()),
        Err(detail) => Err(SessionError::Resize(detail)),
    }
}

/// Once a session is closed, nothing finds it: whatever was registered, a lookup of `id`
/// right after the session `id` was taken off reports that no such session exists.
pub proof fn lemma_closed_session_not_found<M, W>(
    sessions: Map<u32, SessionHandle<M, W>>,
    id: u32,
)
    ensures
        find(sessions.remove(id), id) == Err::<SessionHandle<M, W>, SessionError>(
            SessionError::SessionNotFound(id),
        ),
{
}

/// Closing one session leaves every other as it was.
pub proof fn lemma_close_spares_others<M, W>(
    sessions: Map<u32, SessionHandle<M, W>>,
    id: u32,
    other: u32,
)
    requires
        other != id,
    ensures
        find(sessions.remove(id), other) == find(sessions, other),
{
}

/// The registered identifiers are those that the sessions were opened with, and no two
/// registered sessions share one.
///
/// After any sequence of opens, an identifier is registered exactly if it was before or
/// one of the opens used it, and it stands for one session only: the last that was
/// opened with it.
pub proof fn lemma_one_session_per_reported_id<M, W>(
    sessions: Map<u32, SessionHandle<M, W>>,
    opened: Seq<(u32, SessionHandle<M, W>)>,
)
    ensures
        forall|id: u32| #[trigger]
            after_opens(sessions, opened).contains_key(id) <==> sessions.contains_key(id) || exists|
                i: int,
            |
                0 <= i < opened.len() && (#[trigger] opened[i]).0 == id,
        forall|i: int|
            0 <= i < opened.len() && (forall|j: int|
                i < j < opened.len() ==> (#[trigger] opened[j]).0 != opened[i].0) ==> find(
                after_opens(sessions, opened),
                (#[trigger] opened[i]).0,
            ) == Ok::<SessionHandle<M, W>, SessionError>(opened[i].1),
    decreases opened.len(),
{
    if opened.len() > 0 {
        let earlier = opened.drop_last();
        lemma_one_session_per_reported_id(sessions, earlier);
        let now = after_opens(sessions, opened);
        assert forall|id: u32| #[trigger]
            now.contains_key(id) <==> sessions.contains_key(id) || exists|i: int|
                0 <= i < opened.len() && (#[trigger] opened[i]).0 == id by {
            if now.contains_key(id) && !sessions.contains_key(id) {
                if id == opened.last().0 {
                    assert(opened[opened.len() - 1].0 == id);
                } else {
                    let i = choose|i: int| 0 <= i < earlier.len() && (#[trigger] earlier[i]).0 == id;
                    assert(opened[i].0 == id);
                }
            }
            if exists|i: int| 0 <= i < opened.len() && (#[trigger] opened[i]).0 == id {
                let i = choose|i: int| 0 <= i < opened.len() && (#[trigger] opened[i]).0 == id;
                if i < opened.len() - 1 {
                    assert(earlier[i].0 == id);
                }
            }
        }
        assert forall|i: int|
            0 <= i < opened.len() && (forall|j: int|
                i < j < opened.len() ==> (#[trigger] opened[j]).0 != opened[i].0) implies find(
            now,
            (#[trigger] opened[i]).0,
        ) == Ok::<SessionHandle<M, W>, SessionError>(opened[i].1) by {
            if i < opened.len() - 1 {
                assert(opened[opened.len() - 1].0 != opened[i].0);
                assert(earlier[i] == opened[i]);
                assert forall|j: int| i < j < earlier.len() implies (#[trigger] earlier[j]).0
                    != earlier[i].0 by {
                    assert(opened[j].0 != opened[i].0);
                }
            }
        }
    }
}

} // verus!
