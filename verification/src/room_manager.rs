use std::collections::HashMap;
use vstd::prelude::*;

use crate::room::{deadline_fits, RoomActor, RoomActorMessage, RoomView, TEAMS_DEADLINE_MS};

verus! {

broadcast use vstd::std_specs::hash::group_hash_axioms;

/// The registry of open rooms: for each room id the handle by which
/// messages reach that room's actor. `H` is the handle; the registry stores
/// handles and never looks into them.
///
/// The registry owns the room ids. They start at 1 and rise by one with
/// each room; none is used twice.
pub struct RoomManager<H> {
    rooms: HashMap<u64, H>,
    next_room_id: u64,
    removed: Ghost<nat>,
}

impl<H> View for RoomManager<H> {
    type V = Map<u64, H>;

    closed spec fn view(&self) -> Map<u64, H> {
        self.rooms@
    }
}

impl<H> RoomManager<H> {
    pub closed spec fn spec_next_room_id(&self) -> u64 {
        self.next_room_id
    }

    /// The id that the next room gets.
    #[verifier::when_used_as_spec(spec_next_room_id)]
    pub fn next_room_id(&self) -> (id: u64)
        ensures
            id == self.spec_next_room_id(),
    {
        self.next_room_id
    }

    /// How many rooms were created so far.
    pub open spec fn created_count(&self) -> nat {
        (self.next_room_id() - 1) as nat
    }

    /// How many rooms were removed so far. A removal of a room that is not
    /// there does not count.
    pub closed spec fn removed_count(&self) -> nat {
        self.removed@
    }

    /// Ids start at 1; every open room has an id that was handed out; and
    /// the open rooms are those created and not removed since.
    pub open spec fn wf(&self) -> bool {
        &&& self.next_room_id() >= 1
        &&& forall|id: u64| #[trigger] self@.contains_key(id) ==> 1 <= id < self.next_room_id()
        &&& self@.len() + self.removed_count() == self.created_count()
    }

    /// Whether `after` is this registry once a room was opened in it under
    /// `room_id` with `handle`: the id is the next one and was free, the
    /// handle stands under it, and nothing else has changed.
    pub open spec fn opened(&self, after: &Self, room_id: u64, handle: H) -> bool {
        &&& room_id == self.next_room_id()
        &&& !self@.contains_key(room_id)
        &&& after@ == self@.insert(room_id, handle)
        &&& after.next_room_id() == room_id + 1
        &&& after.removed_count() == self.removed_count()
    }

    /// A registry without rooms.
    pub fn new() -> (manager: Self)
        ensures
            manager@ == Map::<u64, H>::empty(),
            manager.next_room_id() == 1,
            manager.removed_count() == 0,
            manager.wf(),
    {
        Self { rooms: HashMap::new(), next_room_id: 1, removed: Ghost(0) }
    }

    /// The id of the room created last, or 0 where none was.
    pub fn get_latest_room_id(&self) -> (id: u64)
        requires
            self.wf(),
        ensures
            id == self.created_count(),
    {
        self.next_room_id - 1
    }

    /// The handle of a room, if it is open.
    pub fn get_room_sender(&self, room_id: u64) -> (sender: Option<&H>)
        ensures
            match sender {
                Some(handle) => self@.contains_key(room_id) && *handle == self@[room_id],
                None => !self@.contains_key(room_id),
            },
    {
        self.rooms.get(&room_id)
    }

    /// The number of open rooms: those created, less those removed.
    pub fn room_count(&self) -> (count: usize)
        requires
            self.wf(),
        ensures
            count == self@.len(),
            count == self.created_count() - self.removed_count(),
    {
        self.rooms.len()
    }

    /// Opens a room for `players`: takes the next id, registers `handle`
    /// under it and returns the id with the room's actor, which from `now`
    /// on waits for the sprite teams.
    pub fn create_room(&mut self, players: [u64; 2], handle: H, now: u64) -> (created: (
        u64,
        RoomActor,
    ))
        requires
            old(self).wf(),
            old(self).next_room_id() < u64::MAX,
            deadline_fits(now, TEAMS_DEADLINE_MS),
        ensures
            old(self).opened(final(self), created.0, handle),
            final(self).wf(),
            created.1@ == RoomView::initial(created.0, players, now),
            created.1@.wf(),
    {
        let room_id = self.next_room_id;
        self.next_room_id = room_id + 1;
        let room_actor = RoomActor::new(room_id, players, now);
        self.rooms.insert(room_id, handle);
        (room_id, room_actor)
    }

    /// Forgets a room and returns its handle with the message to send
    /// through it, which tells the room's actor to close. From the return
    /// on, the room is absent to every lookup. `None` where the room was
    /// not there.
    pub fn remove_room(&mut self, room_id: u64) -> (removed: Option<(H, RoomActorMessage)>)
        requires
            old(self).wf(),
        ensures
            final(self)@ == old(self)@.remove(room_id),
            removed == if old(self)@.contains_key(room_id) {
                Some((old(self)@[room_id], RoomActorMessage::Close))
            } else {
                None
            },
            final(self).next_room_id() == old(self).next_room_id(),
            final(self).removed_count() == old(self).removed_count() + if removed is Some {
                1nat
            } else {
                0nat
            },
            final(self).wf(),
    {
        match self.rooms.remove(&room_id) {
            Some(handle) => {
                proof {
                    self.removed@ = self.removed@ + 1;
                }
                Some((handle, RoomActorMessage::Close))
            },
            None => None,
        }
    }

    /// Opening a room adds one room and touches no other: the count of
    /// open rooms rises by one, the new id was free and now gives the
    /// handle, and every other id gives what it gave before.
    pub proof fn lemma_opened_adds_one_room(&self, after: &Self, room_id: u64, handle: H)
        requires
            self.wf(),
            self.opened(after, room_id, handle),
        ensures
            after.wf(),
            after@.len() == self@.len() + 1,
            after.created_count() == self.created_count() + 1,
            !self@.contains_key(room_id),
            after@.contains_key(room_id) && after@[room_id] == handle,
            forall|other: u64|
                other != room_id ==> (#[trigger] after@.contains_key(other)
                    == self@.contains_key(other)),
            forall|other: u64|
                other != room_id && self@.contains_key(other) ==> #[trigger] after@[other]
                    == self@[other],
    {
    }

    /// Rooms get rising ids: of two rooms opened one after the other, the
    /// second has the id that follows, and both are then open.
    pub proof fn lemma_rooms_open_in_order(
        &self,
        between: &Self,
        after: &Self,
        first: u64,
        first_handle: H,
        second: u64,
        second_handle: H,
    )
        requires
            self.wf(),
            self.opened(between, first, first_handle),
            between.opened(after, second, second_handle),
        ensures
            second == first + 1,
            after@.len() == self@.len() + 2,
            after@.contains_key(first) && after@[first] == first_handle,
            after@.contains_key(second) && after@[second] == second_handle,
    {
        self.lemma_opened_adds_one_room(between, first, first_handle);
        between.lemma_opened_adds_one_room(after, second, second_handle);
    }

    /// Once every room that was created has been removed, none is open.
    pub proof fn lemma_none_open_once_all_removed(&self)
        requires
            self.wf(),
            self.removed_count() == self.created_count(),
        ensures
            self@.len() == 0,
            forall|id: u64| !self@.contains_key(id),
    {
    }
}

} // verus!
