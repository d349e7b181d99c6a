use std::collections::HashMap;
use vstd::prelude::*;

use crate::actor::ActorMessage;

verus! {

broadcast use vstd::std_specs::hash::group_hash_axioms;

/// The registry of connected players: for each player id the handle by
/// which messages reach that player's actor. `H` is the handle; the
/// registry stores handles and never looks into them.
///
/// The registry also hands out player ids, each one once.
pub struct SessionManager<H> {
    sessions: HashMap<u64, H>,
    next_player_id: u64,
}

impl<H> View for SessionManager<H> {
    type V = Map<u64, H>;

    closed spec fn view(&self) -> Map<u64, H> {
        self.sessions@
    }
}

impl<H> SessionManager<H> {
    pub closed spec fn spec_next_player_id(&self) -> u64 {
        self.next_player_id
    }

    /// The id that `allocate_player_id` hands out next.
    #[verifier::when_used_as_spec(spec_next_player_id)]
    pub fn next_player_id(&self) -> (id: u64)
        ensures
            id == self.spec_next_player_id(),
    {
        self.next_player_id
    }

    /// An empty registry, whose first player id is 1.
    pub fn new() -> (manager: Self)
        ensures
            manager@ == Map::<u64, H>::empty(),
            manager.next_player_id() == 1,
    {
        Self { sessions: HashMap::new(), next_player_id: 1 }
    }

    /// Hands out a player id that was never handed out before.
    pub fn allocate_player_id(&mut self) -> (id: u64)
        requires
            old(self).next_player_id() < u64::MAX,
        ensures
            id == old(self).next_player_id(),
            final(self).next_player_id() == id + 1,
            final(self)@ == old(self)@,
    {
        let id = self.next_player_id;
        self.next_player_id = id + 1;
        id
    }

    /// Registers the handle of a player. A handle registered before under
    /// the same id is replaced.
    pub fn register(&mut self, id: u64, tx: H)
        ensures
            final(self)@ == old(self)@.insert(id, tx),
            final(self).next_player_id() == old(self).next_player_id(),
    {
        self.sessions.insert(id, tx);
    }

    /// Forgets the handle of a player, if there is one.
    pub fn unregister(&mut self, id: u64)
        ensures
            final(self)@ == old(self)@.remove(id),
            final(self).next_player_id() == old(self).next_player_id(),
    {
        self.sessions.remove(&id);
    }

    /// The handle of a player, if it is registered.
    pub fn get_session(&self, id: u64) -> (session: Option<&H>)
        ensures
            match session {
                Some(handle) => self@.contains_key(id) && *handle == self@[id],
                None => !self@.contains_key(id),
            },
    {
        self.sessions.get(&id)
    }

    /// Addresses a message to a player: the handle to send it through,
    /// with the message, or `None` where the player is not registered. An
    /// absent player is no error; the message is then dropped.
    pub fn send_message(&self, id: u64, message: ActorMessage) -> (delivery: Option<
        (&H, ActorMessage),
    >)
        ensures
            match delivery {
                Some((handle, out)) => self@.contains_key(id) && *handle == self@[id] && out
                    == message,
                None => !self@.contains_key(id),
            },
    {
        match self.get_session(id) {
            Some(handle) => Some((handle, message)),
            None => None,
        }
    }

    /// The number of registered players.
    pub fn session_count(&self) -> (count: usize)
        ensures
            count == self@.len(),
    {
        self.sessions.len()
    }
}

} // verus!
