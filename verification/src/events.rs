use vstd::prelude::*;

use crate::message::ServerPayload;

verus! {

/// A notification between the parts of the server.
#[derive(Debug, Clone)]
pub enum ServerEvent {
    /// Deliver `payload` to the connection of one player.
    SendMessageToPlayer { player_id: u64, payload: ServerPayload },
    /// A player waits for an opponent.
    PlayerReadyForMatchmaking { player_id: u64 },
    /// Two players were paired; a room is to be created for them.
    MatchFound { players: [u64; 2] },
    /// A room was created.
    RoomCreated { room_id: u64, players: [u64; 2] },
    /// A room is to be closed and forgotten.
    CloseRoom { room_id: u64 },
    /// A player is asked for its sprite team.
    RequestSpriteTeam { player_id: u64, room_id: u64 },
}

/// What a subscriber is handed when it asks the bus for its next event.
#[derive(Debug, Clone)]
pub enum BusDelivery {
    /// The next event, in the order of publication.
    Event(ServerEvent),
    /// The subscriber fell behind and missed this many events. It goes on
    /// with the oldest event that the bus still holds.
    Lagged(u64),
    /// The bus is gone.
    Closed,
}

/// The capacity of the bus: a subscriber that falls further behind than
/// this many events is told how many it missed.
pub const EVENT_BUS_CAPACITY: usize = 1024;

/// `tokio::sync::broadcast::Sender`, the sending half of a channel: a
/// value that is carried along and never looked into.
#[verifier::external_type_specification]
#[verifier::external_body]
#[verifier::reject_recursive_types(T)]
pub struct ExBroadcastSender<T>(tokio::sync::broadcast::Sender<T>);

/// `tokio::sync::broadcast::Receiver`, a receiving half of a channel: a
/// value that is handed out and never looked into.
#[verifier::external_type_specification]
#[verifier::external_body]
#[verifier::reject_recursive_types(T)]
pub struct ExBroadcastReceiver<T>(tokio::sync::broadcast::Receiver<T>);

/// `Clone` of `tokio::sync::broadcast::Sender`: one more handle on the same
/// channel. Nothing is claimed of it.
pub assume_specification<T>[ <tokio::sync::broadcast::Sender<T> as Clone>::clone ](
    sender: &tokio::sync::broadcast::Sender<T>,
) -> tokio::sync::broadcast::Sender<T>;

/// Whether a number is a power of two.
pub open spec fn is_power_of_two(n: nat) -> bool
    decreases n,
{
    n == 1 || (n > 1 && n % 2 == 0 && is_power_of_two(n / 2))
}

/// Between a power of two and its double there is no other power of two.
pub proof fn lemma_power_of_two_is_alone(p: nat, q: nat)
    requires
        is_power_of_two(p),
        is_power_of_two(q),
        q <= p < 2 * q,
    ensures
        p == q,
    decreases q,
{
    if q > 1 {
        lemma_power_of_two_is_alone(p / 2, q / 2);
    }
}

/// How many events the channel behind a sender keeps for its subscribers
/// to catch up on: the size of its ring of slots, which never changes. A
/// subscriber that falls further behind is told how many events it missed.
pub uninterp spec fn channel_capacity(sender: tokio::sync::broadcast::Sender<ServerEvent>) -> usize;

/// `tokio::sync::broadcast::channel`, of which the sending half is kept. It
/// panics on a capacity of zero or above `usize::MAX / 2`. The channel
/// keeps as many events as are asked for, rounded up to the next power of
/// two; nothing else is claimed of it.
#[verifier::external_body]
fn broadcast_sender(capacity: usize) -> (sender: tokio::sync::broadcast::Sender<ServerEvent>)
    requires
        0 < capacity <= usize::MAX / 2,
    ensures
        is_power_of_two(channel_capacity(sender) as nat),
        capacity <= channel_capacity(sender) < 2 * capacity,
{
    tokio::sync::broadcast::channel(capacity).0
}

/// `tokio::sync::broadcast::Sender::send`, which never waits. With no
/// receiver the call fails and hands the event back; that outcome is
/// dropped here. The channel is shared and changes behind the handle, so
/// nothing is claimed of it.
#[verifier::external_body]
fn broadcast_send(sender: &tokio::sync::broadcast::Sender<ServerEvent>, event: ServerEvent) {
    let _ = sender.send(event);
}

/// `tokio::sync::broadcast::Sender::subscribe`: a receiver that starts at
/// the tail of the channel, after everything sent so far. The call panics
/// once the channel has `usize::MAX / 4` receivers, more than a process can
/// hold. Nothing is claimed of the receiver.
#[verifier::external_body]
fn broadcast_subscribe(sender: &tokio::sync::broadcast::Sender<ServerEvent>) -> (receiver:
    tokio::sync::broadcast::Receiver<ServerEvent>) {
    sender.subscribe()
}

/// The process-wide publish/subscribe channel. A clone is one more handle
/// on the same bus. Delivery is best effort: the bus keeps the last
/// `EVENT_BUS_CAPACITY` events, and a subscriber that falls further behind
/// loses the older ones.
#[derive(Debug, Clone)]
pub struct EventBus {
    sender: tokio::sync::broadcast::Sender<ServerEvent>,
}

impl EventBus {
    /// How many events the bus keeps for its subscribers to catch up on.
    pub closed spec fn capacity(&self) -> usize {
        channel_capacity(self.sender)
    }

    /// A bus without subscribers, which keeps `EVENT_BUS_CAPACITY` events.
    pub fn new() -> (bus: Self)
        ensures
            bus.capacity() == EVENT_BUS_CAPACITY,
    {
        let sender = broadcast_sender(EVENT_BUS_CAPACITY);
        proof {
            assert(is_power_of_two(EVENT_BUS_CAPACITY as nat)) by {
                reveal_with_fuel(is_power_of_two, 11);
            }
            lemma_power_of_two_is_alone(
                channel_capacity(sender) as nat,
                EVENT_BUS_CAPACITY as nat,
            );
        }
        Self { sender }
    }

    /// Publishes an event to every current subscriber. Never blocks and
    /// never fails: with no subscriber the event is dropped.
    pub fn publish(&self, event: ServerEvent) {
        broadcast_send(&self.sender, event)
    }

    /// A new subscriber, which is handed every event published from now
    /// on, in the order of publication, and none published before.
    pub fn subscribe(&self) -> tokio::sync::broadcast::Receiver<ServerEvent> {
        broadcast_subscribe(&self.sender)
    }
}

} // verus!
