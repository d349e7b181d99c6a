use vstd::prelude::*;

use crate::actor::{ActorMessage, SystemMessage};
use crate::events::{BusDelivery, ServerEvent};
use crate::room::{deadline_fits, RoomActor, RoomActorMessage, RoomView, TEAMS_DEADLINE_MS};
use crate::room_manager::RoomManager;
use crate::session::SessionManager;

verus! {

/// The coordinator: it opens a room for every pair that matchmaking finds,
/// tells the two players, and closes rooms on request.
#[derive(Debug, Clone, Copy)]
pub struct GameCoordinator {}

/// What the coordinator is to do after a delivery from the bus.
#[derive(Debug, Clone, Copy)]
pub enum CoordinatorStep {
    /// Open a room for the pair: `handle_match`.
    CreateRoom { players: [u64; 2] },
    /// Close the room: `handle_close_room`.
    CloseRoom { room_id: u64 },
    /// Nothing; wait for the next delivery.
    Idle,
    /// The bus is gone: end.
    Stop,
}

/// What comes of a match: the room that was opened and what is to be sent.
#[derive(Debug)]
pub struct MatchPlan {
    pub room_id: u64,
    /// The actor of the new room, to be started.
    pub room: RoomActor,
    /// For each player who is connected, the notification to send to it, in
    /// the order of the pair.
    pub notifications: Vec<(u64, ActorMessage)>,
    /// The event to publish after the notifications.
    pub announcement: ServerEvent,
}

/// The players of a pair who are among `connected`, in the order of the
/// pair.
pub open spec fn to_notify(players: [u64; 2], connected: Set<u64>) -> Seq<u64> {
    let first = if connected.contains(players[0]) {
        seq![players[0]]
    } else {
        Seq::<u64>::empty()
    };
    if connected.contains(players[1]) {
        first.push(players[1])
    } else {
        first
    }
}

/// Whether `notifications` tell each of `recipients`, in this order, that
/// it enters the room `room_id`.
pub open spec fn invites(
    notifications: Seq<(u64, ActorMessage)>,
    recipients: Seq<u64>,
    room_id: u64,
) -> bool {
    &&& notifications.len() == recipients.len()
    &&& forall|i: int|
        0 <= i < notifications.len() ==> {
            &&& (#[trigger] notifications[i]).0 == recipients[i]
            &&& notifications[i].1 matches ActorMessage::SystemNotification(
                SystemMessage::EnterRoom { room_id: to, opponent_name },
            )
            &&& to == room_id
            &&& opponent_name@ == "Opponent"@
        }
}

/// Whether `plan` is what comes of a match of `players`, where `before`
/// and `after` are the registry of rooms before and after it, `handle` is
/// the handle of the new room, and `connected` are the connected players:
/// one room is opened under the next id, its actor waits for the teams of
/// the pair, each connected player of the pair is invited, and the room is
/// announced.
pub open spec fn plans_match<R>(
    before: &RoomManager<R>,
    after: &RoomManager<R>,
    players: [u64; 2],
    handle: R,
    connected: Set<u64>,
    now: u64,
    plan: MatchPlan,
) -> bool {
    &&& before.opened(after, plan.room_id, handle)
    &&& plan.room@ == RoomView::initial(plan.room_id, players, now)
    &&& invites(plan.notifications@, to_notify(players, connected), plan.room_id)
    &&& plan.announcement == (ServerEvent::RoomCreated { room_id: plan.room_id, players })
}

impl GameCoordinator {
    pub fn new() -> Self {
        GameCoordinator {}
    }

    /// What to do after a delivery from the bus: a found match asks for a
    /// room, a request to close asks for the closing, and the end of the
    /// bus ends the coordinator. Other events, and a report of missed
    /// events, ask for nothing.
    pub fn run(&self, delivery: BusDelivery) -> (step: CoordinatorStep)
        ensures
            step == match delivery {
                BusDelivery::Event(ServerEvent::MatchFound { players }) => CoordinatorStep::CreateRoom {
                    players,
                },
                BusDelivery::Event(ServerEvent::CloseRoom { room_id }) => CoordinatorStep::CloseRoom {
                    room_id,
                },
                BusDelivery::Closed => CoordinatorStep::Stop,
                _ => CoordinatorStep::Idle,
            },
    {
        match delivery {
            BusDelivery::Event(ServerEvent::MatchFound { players }) => CoordinatorStep::CreateRoom {
                players,
            },
            BusDelivery::Event(ServerEvent::CloseRoom { room_id }) => CoordinatorStep::CloseRoom {
                room_id,
            },
            BusDelivery::Closed => CoordinatorStep::Stop,
            _ => CoordinatorStep::Idle,
        }
    }

    /// Opens a room for a pair, registered under `handle`, and plans what
    /// follows: each of the two players who is connected is told that it
    /// enters the room, and then the room is announced. A player who is
    /// not connected is passed over; the room is opened all the same.
    pub fn handle_match<R, P>(
        &self,
        players: [u64; 2],
        handle: R,
        rooms: &mut RoomManager<R>,
        sessions: &SessionManager<P>,
        now: u64,
    ) -> (plan: MatchPlan)
        requires
            old(rooms).wf(),
            old(rooms).next_room_id() < u64::MAX,
            deadline_fits(now, TEAMS_DEADLINE_MS),
        ensures
            plans_match(old(rooms), final(rooms), players, handle, sessions@.dom(), now, plan),
            final(rooms).wf(),
            plan.room@.wf(),
    {
        let (room_id, room) = rooms.create_room(players, handle, now);
        let mut notifications: Vec<(u64, ActorMessage)> = Vec::new();
        let mut i: usize = 0;
        while i < 2
            invariant
                i <= 2,
                invites(
                    notifications@,
                    to_notify(players, sessions@.dom()).take(notifications@.len() as int),
                    room_id,
                ),
                notifications@.len() <= to_notify(players, sessions@.dom()).len(),
                i == 0 ==> notifications@.len() == 0,
                i == 1 ==> notifications@.len() == (if sessions@.dom().contains(players[0]) {
                    1nat
                } else {
                    0nat
                }),
                i == 2 ==> notifications@.len() == to_notify(players, sessions@.dom()).len(),
            decreases 2 - i,
        {
            let player_id = players[i];
            if sessions.get_session(player_id).is_some() {
                let notification = ActorMessage::SystemNotification(
                    SystemMessage::EnterRoom { room_id, opponent_name: "Opponent".to_string() },
                );
                notifications.push((player_id, notification));
            }
            i = i + 1;
        }
        MatchPlan {
            room_id,
            room,
            notifications,
            announcement: ServerEvent::RoomCreated { room_id, players },
        }
    }

    /// Closes a room: forgets it, and returns its handle with the message
    /// that tells its actor to close. `None` where the room is not open.
    pub fn handle_close_room<R>(&self, room_id: u64, rooms: &mut RoomManager<R>) -> (closing:
        Option<(R, RoomActorMessage)>)
        requires
            old(rooms).wf(),
        ensures
            final(rooms)@ == old(rooms)@.remove(room_id),
            closing == if old(rooms)@.contains_key(room_id) {
                Some((old(rooms)@[room_id], RoomActorMessage::Close))
            } else {
                None
            },
            final(rooms).next_room_id() == old(rooms).next_room_id(),
            final(rooms).removed_count() == old(rooms).removed_count() + if closing is Some {
                1nat
            } else {
                0nat
            },
            final(rooms).wf(),
    {
        rooms.remove_room(room_id)
    }
}

/// A match opens exactly one room, seeded with the pair, and plans one
/// announcement of it. Where both players are connected, each of them is
/// invited once, in the order of the pair, into the new room, and nobody
/// else is.
pub proof fn lemma_match_opens_one_room<R>(
    before: &RoomManager<R>,
    after: &RoomManager<R>,
    players: [u64; 2],
    handle: R,
    connected: Set<u64>,
    now: u64,
    plan: MatchPlan,
)
    requires
        before.wf(),
        plans_match(before, after, players, handle, connected, now, plan),
    ensures
        after@.len() == before@.len() + 1,
        after@.contains_key(plan.room_id) && after@[plan.room_id] == handle,
        plan.room@.room_id == plan.room_id,
        plan.room@.players == players,
        plan.announcement == (ServerEvent::RoomCreated { room_id: plan.room_id, players }),
        forall|i: int|
            0 <= i < plan.notifications@.len() ==> {
                &&& connected.contains((#[trigger] plan.notifications@[i]).0)
                &&& plan.notifications@[i].0 == players[0] || plan.notifications@[i].0
                    == players[1]
                &&& plan.notifications@[i].1 matches ActorMessage::SystemNotification(
                    SystemMessage::EnterRoom { room_id, .. },
                )
                &&& room_id == plan.room_id
            },
        connected.contains(players[0]) && connected.contains(players[1]) ==> {
            &&& plan.notifications@.len() == 2
            &&& plan.notifications@[0].0 == players[0]
            &&& plan.notifications@[1].0 == players[1]
        },
{
    before.lemma_opened_adds_one_room(after, plan.room_id, handle);
}

/// Matches are served in their order: of two matches handled one after the
/// other, the room of the first has the lower id, each room holds its own
/// pair, and each plan announces its own room and pair.
pub proof fn lemma_matches_open_rooms_in_order<R>(
    before: &RoomManager<R>,
    between: &RoomManager<R>,
    after: &RoomManager<R>,
    first_players: [u64; 2],
    first_handle: R,
    first_connected: Set<u64>,
    first_now: u64,
    first: MatchPlan,
    second_players: [u64; 2],
    second_handle: R,
    second_connected: Set<u64>,
    second_now: u64,
    second: MatchPlan,
)
    requires
        before.wf(),
        plans_match(
            before,
            between,
            first_players,
            first_handle,
            first_connected,
            first_now,
            first,
        ),
        plans_match(
            between,
            after,
            second_players,
            second_handle,
            second_connected,
            second_now,
            second,
        ),
    ensures
        first.room_id < second.room_id,
        after@.len() == before@.len() + 2,
        first.room@.players == first_players,
        second.room@.players == second_players,
        first.announcement == (ServerEvent::RoomCreated {
            room_id: first.room_id,
            players: first_players,
        }),
        second.announcement == (ServerEvent::RoomCreated {
            room_id: second.room_id,
            players: second_players,
        }),
{
    before.lemma_rooms_open_in_order(
        between,
        after,
        first.room_id,
        first_handle,
        second.room_id,
        second_handle,
    );
}

} // verus!
