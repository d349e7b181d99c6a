use vstd::prelude::*;

verus! {

/// Per-connection counters of one authenticated player.
///
/// `last_client_sequence` is the sequence number of the last client message
/// that was accepted; `server_sequence` counts the messages sent back.
#[derive(Debug, Clone, Copy)]
pub struct PlayerSession {
    player_id: u64,
    last_client_sequence: u64,
    server_sequence: u64,
}

impl PlayerSession {
    pub closed spec fn spec_player_id(&self) -> u64 {
        self.player_id
    }

    pub closed spec fn spec_last_client_sequence(&self) -> u64 {
        self.last_client_sequence
    }

    pub closed spec fn spec_server_sequence(&self) -> u64 {
        self.server_sequence
    }

    pub fn new(player_id: u64, last_client_sequence: u64, server_sequence: u64) -> (session: Self)
        ensures
            session.player_id() == player_id,
            session.last_client_sequence() == last_client_sequence,
            session.server_sequence() == server_sequence,
    {
        Self { player_id, last_client_sequence, server_sequence }
    }

    #[verifier::when_used_as_spec(spec_player_id)]
    pub fn player_id(&self) -> (id: u64)
        ensures
            id == self.spec_player_id(),
    {
        self.player_id
    }

    #[verifier::when_used_as_spec(spec_last_client_sequence)]
    pub fn last_client_sequence(&self) -> (sequence: u64)
        ensures
            sequence == self.spec_last_client_sequence(),
    {
        self.last_client_sequence
    }

    #[verifier::when_used_as_spec(spec_server_sequence)]
    pub fn server_sequence(&self) -> (sequence: u64)
        ensures
            sequence == self.spec_server_sequence(),
    {
        self.server_sequence
    }

    pub fn last_client_sequence_increment(&mut self)
        requires
            old(self).last_client_sequence() < u64::MAX,
        ensures
            final(self).last_client_sequence() == old(self).last_client_sequence() + 1,
            final(self).player_id() == old(self).player_id(),
            final(self).server_sequence() == old(self).server_sequence(),
    {
        self.last_client_sequence += 1;
    }

    pub fn server_sequence_increment(&mut self)
        requires
            old(self).server_sequence() < u64::MAX,
        ensures
            final(self).server_sequence() == old(self).server_sequence() + 1,
            final(self).player_id() == old(self).player_id(),
            final(self).last_client_sequence() == old(self).last_client_sequence(),
    {
        self.server_sequence += 1;
    }
}

impl Default for PlayerSession {
    fn default() -> (session: Self)
        ensures
            session.player_id() == 0,
            session.last_client_sequence() == 0,
            session.server_sequence() == 0,
    {
        Self { player_id: 0, last_client_sequence: 0, server_sequence: 0 }
    }
}

} // verus!
