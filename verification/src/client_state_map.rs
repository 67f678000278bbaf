//! The session store: the sole owner of every guild's session record.
//!
//! All mutation of session state anywhere in the library goes through
//! `insert` / `update` / `remove`; `get` hands out read-only snapshots.  The
//! caller is expected to serialize access (one exclusive lock around the
//! store); within that discipline each operation is atomic and a reader never
//! observes a half-applied mutation.

use std::collections::HashMap;

use vstd::prelude::*;

use crate::client_state::ClientState;
use crate::client_state_error::ClientStateError;

verus! {

broadcast use vstd::std_specs::hash::group_hash_axioms;

/// The keyed container of all session records, viewed as a mathematical map
/// from guild identifier to record.
pub struct ClientStateMap {
    map: HashMap<u64, ClientState>,
}

impl View for ClientStateMap {
    type V = Map<u64, ClientState>;

    closed spec fn view(&self) -> Map<u64, ClientState> {
        self.map@
    }
}

impl ClientStateMap {
    /// Every record held by the store is well-formed.
    pub open spec fn wf(self) -> bool {
        crate::client_state::map_wf(self@)
    }

    /// An empty store.
    pub fn new() -> (r: Self)
        ensures
            r@ == Map::<u64, ClientState>::empty(),
            r.wf(),
    {
        ClientStateMap { map: HashMap::new() }
    }

    /// A read-only snapshot of the guild's record, if one exists.
    pub fn get(&self, id: &u64) -> (r: Option<&ClientState>)
        ensures
            match r {
                Some(state) => self@.contains_key(*id) && *state == self@[*id],
                None => !self@.contains_key(*id),
            },
    {
        self.map.get(id)
    }

    /// Whether a record exists for the guild.
    pub fn contains_key(&self, id: &u64) -> (r: bool)
        ensures
            r == self@.contains_key(*id),
    {
        self.map.contains_key(id)
    }

    /// Reserves the guild key: inserts the given record if and only if the
    /// guild has none yet.  A guild that already has a record is left
    /// untouched and the call fails with `ReservedClientID` — reservation is
    /// exclusive and never overwrites.
    pub fn insert(&mut self, id: &u64, client_state: ClientState) -> (r: Result<
        (),
        ClientStateError,
    >)
        ensures
            match r {
                Ok(()) => !old(self)@.contains_key(*id) && final(self)@ == old(self)@.insert(
                    *id,
                    client_state,
                ),
                Err(e) => old(self)@.contains_key(*id) && e == ClientStateError::ReservedClientID
                    && final(self)@ == old(self)@,
            },
    {
        if self.map.contains_key(id) {
            return Err(ClientStateError::ReservedClientID);
        }
        self.map.insert(*id, client_state);
        Ok(())
    }

    /// Replaces the guild's record with the given one if and only if a
    /// record exists; fails with `NonExistentClientID` otherwise.  The
    /// replacement is whole: no field of the old record survives.
    pub fn update(&mut self, id: &u64, client_state: ClientState) -> (r: Result<
        (),
        ClientStateError,
    >)
        ensures
            match r {
                Ok(()) => old(self)@.contains_key(*id) && final(self)@ == old(self)@.insert(
                    *id,
                    client_state,
                ),
                Err(e) => !old(self)@.contains_key(*id) && e
                    == ClientStateError::NonExistentClientID && final(self)@ == old(self)@,
            },
    {
        if self.map.contains_key(id) {
            self.map.insert(*id, client_state);
            Ok(())
        } else {
            Err(ClientStateError::NonExistentClientID)
        }
    }

    /// Removes the guild's record if and only if one exists; fails with
    /// `NonExistentClientID` otherwise.
    pub fn remove(&mut self, id: &u64) -> (r: Result<(), ClientStateError>)
        ensures
            match r {
                Ok(()) => old(self)@.contains_key(*id) && final(self)@ == old(self)@.remove(*id),
                Err(e) => !old(self)@.contains_key(*id) && e
                    == ClientStateError::NonExistentClientID && final(self)@ == old(self)@,
            },
    {
        if self.map.contains_key(id) {
            self.map.remove(id);
            Ok(())
        } else {
            Err(ClientStateError::NonExistentClientID)
        }
    }
}

/// Law: a committed replacement is read back whole.  After `update` succeeds
/// for `id` with `state`, the store's view maps `id` to exactly `state`, so a
/// following `get` returns exactly the updated record — no partial merge.
pub proof fn lemma_update_round_trip(m: Map<u64, ClientState>, id: u64, state: ClientState)
    ensures
        m.insert(id, state).contains_key(id),
        m.insert(id, state)[id] == state,
{
}

} // verus!
