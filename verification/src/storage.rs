//! Where a session is kept between runs.

use crate::session::Session;
use crate::session::SessionView;
use vstd::prelude::*;

verus! {

/// A place that keeps one session. A save overwrites what was kept, and a
/// load reads what was saved last. The client relies on nothing else.
pub trait Storage {
    /// Why the backend could not read or write.
    type Error: std::fmt::Debug;

    /// The session that is kept, if there is one. A backend that is written
    /// in verified code says here what it keeps. Of any other backend nothing
    /// is known but what `load` and `save` promise, and that is taken on
    /// trust.
    open spec fn stored(&self) -> Option<SessionView> {
        arbitrary()
    }

    /// Reads the session that is kept. Fails where none is kept, or where the
    /// backend cannot be read.
    fn load(&mut self) -> (outcome: Result<Session, Self::Error>)
        ensures
            loaded(old(self).stored(), outcome, final(self).stored()),
    ;

    /// Keeps `session` in place of what was kept before.
    fn save(&mut self, session: &Session) -> (outcome: Result<(), Self::Error>)
        ensures
            saved(*session, outcome, final(self).stored()),
    ;
}

/// What a load promises of a storage that kept `before` and keeps `after`:
/// it changes nothing of what is kept, and the session that it gives is the
/// one that is kept.
pub open spec fn loaded<E>(
    before: Option<SessionView>,
    outcome: Result<Session, E>,
    after: Option<SessionView>,
) -> bool {
    &&& after == before
    &&& outcome matches Ok(session) ==> before == Some(session@)
}

/// What a save promises of a storage that keeps `after`: where it succeeds,
/// `session` is what is kept. Nothing is known of what is kept after a
/// failure.
pub open spec fn saved<E>(
    session: Session,
    outcome: Result<(), E>,
    after: Option<SessionView>,
) -> bool {
    outcome is Ok ==> after == Some(session@)
}

/// What was saved is what is loaded. Where a save of `session` succeeds and
/// leaves the storage as `kept`, a load from `kept` that succeeds gives
/// `session`, and the storage still holds it.
pub proof fn load_returns_what_was_saved<T: Storage>(
    session: Session,
    saving: Result<(), T::Error>,
    kept: T,
    loading: Result<Session, T::Error>,
    after: T,
)
    requires
        saved(session, saving, kept.stored()),
        saving is Ok,
        loaded(kept.stored(), loading, after.stored()),
        loading is Ok,
    ensures
        loading->Ok_0@ == session@,
        after.stored() == Some(session@),
{
}

/// Why a `MemoryStorage` could not answer.
#[derive(Debug, PartialEq, Eq, Structural)]
pub enum MemoryError {
    /// Nothing has been saved yet.
    Empty,
}

/// A storage that lives as long as the value does.
#[derive(Debug)]
pub struct MemoryStorage {
    slot: Option<Session>,
}

impl MemoryStorage {
    /// A storage that keeps nothing yet.
    pub fn new() -> (storage: MemoryStorage)
        ensures
            storage.stored() is None,
    {
        MemoryStorage { slot: None }
    }
}

impl Storage for MemoryStorage {
    type Error = MemoryError;

    closed spec fn stored(&self) -> Option<SessionView> {
        match self.slot {
            Some(session) => Some(session@),
            None => None,
        }
    }

    /// Gives the session that is kept, and fails only where none is.
    fn load(&mut self) -> (outcome: Result<Session, MemoryError>)
        ensures
            outcome is Ok <==> old(self).stored() is Some,
    {
        match &self.slot {
            Some(session) => Ok(session.clone()),
            None => Err(MemoryError::Empty),
        }
    }

    /// Keeps `session`. This storage takes every session.
    fn save(&mut self, session: &Session) -> (outcome: Result<(), MemoryError>)
        ensures
            outcome is Ok,
    {
        self.slot = Some(session.clone());
        Ok(())
    }
}

} // verus!
