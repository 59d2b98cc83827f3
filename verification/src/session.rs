//! Sessions: transient capabilities that live within one call tree.
//!
//! A session is opened, and later closed, by application code while a call
//! tree runs. It has exactly two states, open and closed, and closing is
//! final: identifiers are numbered in the order of opening and never come
//! back. The manager offers no way to close a session by force; that every
//! session has been closed is checked once, when the call tree ends.

use vstd::prelude::*;
use crate::base::{SessionId, UserApplicationId};
use crate::assoc::{
    distinct_keys, entries_map, has_key, lemma_entries_map_push, lemma_entries_map_remove,
    lemma_entry_at,
};
use crate::data::ExecutionError;

verus! {

/// What the manager keeps for an open session.
#[derive(Clone, Debug, PartialEq, Eq)]
pub struct SessionState {
    /// The application that may close the session.
    pub owner: UserApplicationId,
    /// The data saved in the session.
    pub data: Vec<u8>,
}

/// The view of a [`SessionState`].
pub struct SessionStateView {
    pub owner: UserApplicationId,
    pub data: Seq<u8>,
}

impl View for SessionState {
    type V = SessionStateView;

    open spec fn view(&self) -> SessionStateView {
        SessionStateView { owner: self.owner, data: self.data@ }
    }
}

/// The sessions of one call tree, as contracts see them.
pub struct SessionManagerView {
    /// The number of sessions opened so far.
    pub opened: nat,
    /// The sessions that are open now.
    pub states: Map<SessionId, SessionStateView>,
}

impl SessionManagerView {
    /// The manager of a call tree that has not opened any session.
    pub open spec fn empty() -> SessionManagerView {
        SessionManagerView { opened: 0, states: Map::empty() }
    }

    /// Finitely many sessions are open, and each was numbered before the
    /// next number to hand out.
    pub open spec fn wf(self) -> bool {
        &&& self.states.dom().finite()
        &&& forall|id: SessionId| self.states.dom().contains(id) ==> id.index < self.opened
    }

    /// No session is open.
    pub open spec fn is_empty(self) -> bool {
        self.states.dom() =~= Set::empty()
    }

    /// The identifier that the next session of `owner` gets.
    pub open spec fn next_id(self, owner: UserApplicationId) -> SessionId {
        SessionId { application_id: owner, index: self.opened as u64 }
    }

    /// Whether one more session can be numbered.
    pub open spec fn can_open(self) -> bool {
        self.opened < u64::MAX
    }

    /// The manager after `owner` has opened a session that holds `data`.
    pub open spec fn open(self, owner: UserApplicationId, data: Seq<u8>) -> SessionManagerView {
        SessionManagerView {
            opened: self.opened + 1,
            states: self.states.insert(self.next_id(owner), SessionStateView { owner, data }),
        }
    }

    /// Whether `caller` may close the session `id`: it is open and `caller`
    /// owns it.
    pub open spec fn can_close(self, id: SessionId, caller: UserApplicationId) -> bool {
        self.states.dom().contains(id) && self.states[id].owner == caller
    }

    /// The manager after the session `id` has been closed.
    pub open spec fn close(self, id: SessionId) -> SessionManagerView {
        SessionManagerView { opened: self.opened, states: self.states.remove(id) }
    }
}

/// The open sessions of one call tree.
#[derive(Debug)]
pub struct SessionManager {
    /// The number of sessions opened so far.
    opened: u64,
    /// The open sessions, each identifier at most once.
    states: Vec<(SessionId, SessionState)>,
}

impl View for SessionManager {
    type V = SessionManagerView;

    closed spec fn view(&self) -> SessionManagerView {
        SessionManagerView { opened: self.opened as nat, states: entries_map(self.states@) }
    }
}

impl SessionManager {
    /// The invariant of the manager: no identifier is kept twice, and what it
    /// stands for is well formed.
    pub closed spec fn wf(&self) -> bool {
        &&& distinct_keys(self.states@)
        &&& self@.wf()
    }

    /// The manager of a new call tree.
    pub fn new() -> (manager: SessionManager)
        ensures
            manager.wf(),
            manager@ == SessionManagerView::empty(),
    {
        let manager = SessionManager { opened: 0, states: Vec::new() };
        proof {
            assert(entries_map(manager.states@) =~= Map::empty());
        }
        manager
    }

    /// Whether no session is open.
    pub fn is_empty(&self) -> (empty: bool)
        requires
            self.wf(),
        ensures
            empty == self@.is_empty(),
    {
        proof {
            if self.states@.len() > 0 {
                lemma_entry_at(self.states@, 0);
            }
        }
        self.states.len() == 0
    }

    /// The position of `id` among the open sessions, if it is open.
    fn find(&self, id: SessionId) -> (found: Option<usize>)
        ensures
            match found {
                Some(at) => at < self.states@.len() && self.states@[at as int].0 == id,
                None => !has_key(self.states@, id),
            },
    {
        let mut i: usize = 0;
        while i < self.states.len()
            invariant
                i <= self.states@.len(),
                forall|j: int| 0 <= j < i ==> (#[trigger] self.states@[j]).0 != id,
            decreases self.states.len() - i,
        {
            if self.states[i].0 == id {
                return Some(i);
            }
            i = i + 1;
        }
        None
    }

    /// Opens a session that holds `data`, owned by `owner`, and returns its
    /// identifier. Fails, and changes nothing, only when the numbers have run
    /// out.
    pub fn try_open_session(&mut self, owner: UserApplicationId, data: Vec<u8>) -> (result:
        Result<SessionId, ExecutionError>)
        requires
            old(self).wf(),
        ensures
            final(self).wf(),
            match result {
                Ok(id) => {
                    &&& old(self)@.can_open()
                    &&& id == old(self)@.next_id(owner)
                    &&& final(self)@ == old(self)@.open(owner, data@)
                },
                Err(error) => {
                    &&& !old(self)@.can_open()
                    &&& error == ExecutionError::TooManySessions
                    &&& final(self)@ == old(self)@
                },
            },
    {
        if self.opened == u64::MAX {
            return Err(ExecutionError::TooManySessions);
        }
        let id = SessionId { application_id: owner, index: self.opened };
        let state = SessionState { owner, data };
        proof {
            if has_key(self.states@, id) {
                assert(self@.states.dom().contains(id));
            }
            lemma_entries_map_push(self.states@, id, state);
        }
        self.states.push((id, state));
        self.opened = self.opened + 1;
        Ok(id)
    }

    /// Closes the session `id` on behalf of `caller`. Fails, and changes
    /// nothing, when the session is not open or belongs to another
    /// application.
    pub fn try_close_session(&mut self, id: SessionId, caller: UserApplicationId) -> (result:
        Result<(), ExecutionError>)
        requires
            old(self).wf(),
        ensures
            final(self).wf(),
            match result {
                Ok(()) => {
                    &&& old(self)@.can_close(id, caller)
                    &&& final(self)@ == old(self)@.close(id)
                },
                Err(error) => {
                    &&& !old(self)@.can_close(id, caller)
                    &&& final(self)@ == old(self)@
                    &&& error == if old(self)@.states.dom().contains(id) {
                        ExecutionError::InvalidSessionOwner
                    } else {
                        ExecutionError::InvalidSession
                    }
                },
            },
    {
        match self.find(id) {
            None => Err(ExecutionError::InvalidSession),
            Some(at) => {
                proof {
                    lemma_entry_at(self.states@, at as int);
                }
                if self.states[at].1.owner != caller {
                    return Err(ExecutionError::InvalidSessionOwner);
                }
                proof {
                    lemma_entries_map_remove(self.states@, at as int);
                }
                self.states.remove(at);
                Ok(())
            },
        }
    }
}

} // verus!
