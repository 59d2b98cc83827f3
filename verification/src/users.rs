//! The persistent registers of the user applications of a chain.
//!
//! Each application owns one register: a byte string that only the
//! application understands. A register that was never written is empty.

use vstd::prelude::*;
use crate::assoc::{
    distinct_keys, entries_map, has_key, lemma_entries_map_push, lemma_entries_map_update,
    lemma_entry_at, position_of,
};
use crate::base::UserApplicationId;
use crate::data::copy_bytes;

verus! {

/// The registers of a chain, as contracts see them: the registers that
/// were written, by application.
pub type UserStatesView = Map<UserApplicationId, Seq<u8>>;

/// What `application_id` reads from its register in `states`.
pub open spec fn register_of(states: UserStatesView, application_id: UserApplicationId) -> Seq<
    u8,
> {
    if states.dom().contains(application_id) {
        states[application_id]
    } else {
        Seq::empty()
    }
}

/// The registers of the user applications of a chain.
#[derive(Debug)]
pub struct UserStates {
    /// The registers that were written, each application at most once.
    registers: Vec<(UserApplicationId, Vec<u8>)>,
}

impl View for UserStates {
    type V = UserStatesView;

    closed spec fn view(&self) -> UserStatesView {
        entries_map(self.registers@)
    }
}

impl UserStates {
    /// The invariant of the table: no application is kept twice.
    pub closed spec fn wf(&self) -> bool {
        distinct_keys(self.registers@)
    }

    /// The registers of a chain on which no application has written yet.
    pub fn new() -> (states: UserStates)
        ensures
            states.wf(),
            states@ == Map::<UserApplicationId, Seq<u8>>::empty(),
    {
        let states = UserStates { registers: Vec::new() };
        states
    }

    /// The position of the register of `application_id`, if it was written.
    fn find(&self, application_id: UserApplicationId) -> (found: Option<usize>)
        ensures
            match found {
                Some(at) => at < self.registers@.len() && self.registers@[at as int].0
                    == application_id,
                None => !has_key(self.registers@, application_id),
            },
    {
        let mut i: usize = 0;
        while i < self.registers.len()
            invariant
                i <= self.registers@.len(),
                forall|j: int| 0 <= j < i ==> (#[trigger] self.registers@[j]).0 != application_id,
            decreases self.registers.len() - i,
        {
            if self.registers[i].0 == application_id {
                return Some(i);
            }
            i = i + 1;
        }
        None
    }

    /// A copy of the register of `application_id`.
    pub fn load(&self, application_id: UserApplicationId) -> (bytes: Vec<u8>)
        requires
            self.wf(),
        ensures
            bytes@ == register_of(self@, application_id),
    {
        match self.find(application_id) {
            Some(at) => {
                proof {
                    lemma_entry_at(self.registers@, at as int);
                }
                copy_bytes(&self.registers[at].1)
            },
            None => Vec::new(),
        }
    }

    /// The applications whose register was written, each of them once.
    pub fn application_ids(&self) -> (ids: Vec<UserApplicationId>)
        requires
            self.wf(),
        ensures
            ids@.no_duplicates(),
            forall|application_id: UserApplicationId|
                ids@.contains(application_id) <==> self@.dom().contains(application_id),
    {
        let mut ids: Vec<UserApplicationId> = Vec::new();
        let mut i: usize = 0;
        while i < self.registers.len()
            invariant
                i <= self.registers@.len(),
                ids@.len() == i,
                forall|j: int| 0 <= j < i ==> #[trigger] ids@[j] == self.registers@[j].0,
            decreases self.registers.len() - i,
        {
            ids.push(self.registers[i].0);
            i = i + 1;
        }
        proof {
            assert forall|j: int, k: int| 0 <= j < k < ids@.len() implies ids@[j] != ids@[k] by {
                assert(self.registers@[j].0 != self.registers@[k].0);
            }
            assert forall|application_id: UserApplicationId|
                ids@.contains(application_id) <==> self@.dom().contains(application_id) by {
                if ids@.contains(application_id) {
                    let j = choose|j: int| 0 <= j < ids@.len() && ids@[j] == application_id;
                    assert(self.registers@[j].0 == application_id);
                }
                if has_key(self.registers@, application_id) {
                    let j = position_of(self.registers@, application_id);
                    assert(ids@[j] == application_id);
                }
            }
        }
        ids
    }

    /// Writes `bytes` into the register of `application_id`. The other
    /// registers stay as they are.
    pub fn save(&mut self, application_id: UserApplicationId, bytes: Vec<u8>)
        requires
            old(self).wf(),
        ensures
            final(self).wf(),
            final(self)@ == old(self)@.insert(application_id, bytes@),
    {
        match self.find(application_id) {
            Some(at) => {
                proof {
                    lemma_entries_map_update(self.registers@, at as int, bytes);
                }
                self.registers.set(at, (application_id, bytes));
            },
            None => {
                proof {
                    lemma_entries_map_push(self.registers@, application_id, bytes);
                }
                self.registers.push((application_id, bytes));
            },
        }
    }
}

} // verus!
