use vstd::prelude::*;

use crate::events::{BusDelivery, ServerEvent};

verus! {

/// The matchmaking service: players who are ready wait in a queue, and the
/// two who have waited longest are paired as soon as there are two.
#[derive(Debug)]
pub struct MatchmakingService {
    /// The waiting players, the one who waits longest first.
    queue: Vec<u64>,
}

impl View for MatchmakingService {
    type V = Seq<u64>;

    closed spec fn view(&self) -> Seq<u64> {
        self.queue@
    }
}

/// What the service does after a delivery from the bus.
#[derive(Debug)]
pub struct MatchmakingStep {
    /// The events to publish, in this order.
    pub publish: Vec<ServerEvent>,
    /// Whether the service goes on.
    pub running: bool,
}

/// How many pairs a queue of `waiting` players gives.
pub open spec fn pair_count(waiting: Seq<u64>) -> nat {
    waiting.len() / 2
}

/// The players of the `i`-th pair that a queue gives: those who wait at
/// the places `2 * i` and `2 * i + 1`.
pub open spec fn pair_at(waiting: Seq<u64>, i: int) -> (u64, u64) {
    (waiting[2 * i], waiting[2 * i + 1])
}

/// Who is left of a queue once as many pairs as possible have gone: the
/// last player, where their number is odd.
pub open spec fn left_waiting(waiting: Seq<u64>) -> Seq<u64> {
    waiting.skip(2 * (pair_count(waiting) as int))
}

/// Whether `events` announce the pairs that a queue gives, in their order.
pub open spec fn announces_pairs(events: Seq<ServerEvent>, waiting: Seq<u64>) -> bool {
    &&& events.len() == pair_count(waiting)
    &&& forall|i: int|
        0 <= i < events.len() ==> {
            &&& #[trigger] events[i] matches ServerEvent::MatchFound { players }
            &&& (players[0], players[1]) == pair_at(waiting, i)
        }
}

impl MatchmakingService {
    /// A service with nobody waiting.
    pub fn new() -> (service: Self)
        ensures
            service@ == Seq::<u64>::empty(),
    {
        Self { queue: Vec::new() }
    }

    /// The number of waiting players.
    pub fn waiting(&self) -> (count: usize)
        ensures
            count == self@.len(),
    {
        self.queue.len()
    }

    /// The answer to a delivery from the bus. A player who is ready joins
    /// the end of the queue, and every pair that the queue then gives is
    /// announced. Other events, and a report of missed events, change
    /// nothing. The service ends with the bus.
    pub fn run(&mut self, delivery: BusDelivery) -> (step: MatchmakingStep)
        ensures
            match delivery {
                BusDelivery::Event(ServerEvent::PlayerReadyForMatchmaking { player_id }) => {
                    &&& announces_pairs(step.publish@, old(self)@.push(player_id))
                    &&& final(self)@ == left_waiting(old(self)@.push(player_id))
                },
                _ => step.publish@.len() == 0 && final(self)@ == old(self)@,
            },
            step.running == !(delivery is Closed),
    {
        match delivery {
            BusDelivery::Event(ServerEvent::PlayerReadyForMatchmaking { player_id }) => {
                let publish = self.enqueue(player_id);
                MatchmakingStep { publish, running: true }
            },
            BusDelivery::Closed => MatchmakingStep { publish: Vec::new(), running: false },
            _ => MatchmakingStep { publish: Vec::new(), running: true },
        }
    }

    /// Lets a player join the end of the queue, and pairs the waiting
    /// players, the longest waiting first, as long as there are two.
    pub fn enqueue(&mut self, player_id: u64) -> (publish: Vec<ServerEvent>)
        ensures
            announces_pairs(publish@, old(self)@.push(player_id)),
            final(self)@ == left_waiting(old(self)@.push(player_id)),
    {
        self.queue.push(player_id);
        let ghost waiting = self.queue@;
        let mut publish: Vec<ServerEvent> = Vec::new();
        loop
            invariant
                publish@.len() <= pair_count(waiting),
                self.queue@ == waiting.skip(2 * (publish@.len() as int)),
                forall|i: int|
                    0 <= i < publish@.len() ==> {
                        &&& #[trigger] publish@[i] matches ServerEvent::MatchFound { players }
                        &&& (players[0], players[1]) == pair_at(waiting, i)
                    },
            ensures
                publish@.len() == pair_count(waiting),
            decreases waiting.len() - 2 * publish@.len(),
        {
            match self.try_create_match() {
                Some(players) => {
                    publish.push(ServerEvent::MatchFound { players });
                },
                None => {
                    break ;
                },
            }
        }
        publish
    }

    /// Takes the two players who have waited longest out of the queue, if
    /// there are two.
    pub fn try_create_match(&mut self) -> (pair: Option<[u64; 2]>)
        ensures
            match pair {
                Some(players) => {
                    &&& old(self)@.len() >= 2
                    &&& players[0] == old(self)@[0]
                    &&& players[1] == old(self)@[1]
                    &&& final(self)@ == old(self)@.skip(2)
                },
                None => old(self)@.len() < 2 && final(self)@ == old(self)@,
            },
    {
        if self.queue.len() >= 2 {
            let player_a = self.queue.remove(0);
            let player_b = self.queue.remove(0);
            Some([player_a, player_b])
        } else {
            None
        }
    }
}

/// Who waits after the players of `arrivals` have become ready in this
/// order, one delivery each, where nobody waited before.
pub open spec fn waiting_after(arrivals: Seq<u64>) -> Seq<u64>
    decreases arrivals.len(),
{
    if arrivals.len() == 0 {
        Seq::<u64>::empty()
    } else {
        left_waiting(waiting_after(arrivals.drop_last()).push(arrivals.last()))
    }
}

/// How many pairs were announced after the players of `arrivals` have
/// become ready in this order, where nobody waited before.
pub open spec fn announced_after(arrivals: Seq<u64>) -> nat
    decreases arrivals.len(),
{
    if arrivals.len() == 0 {
        0
    } else {
        announced_after(arrivals.drop_last()) + pair_count(
            waiting_after(arrivals.drop_last()).push(arrivals.last()),
        )
    }
}

/// Pairing goes by arrival. After any arrivals, one at a time, as many
/// pairs have been announced as the arrivals give at once, and only the
/// last of an odd number of players waits.
pub proof fn lemma_pairing_by_arrival(arrivals: Seq<u64>)
    ensures
        waiting_after(arrivals) == left_waiting(arrivals),
        waiting_after(arrivals).len() == arrivals.len() % 2,
        announced_after(arrivals) == pair_count(arrivals),
    decreases arrivals.len(),
{
    if arrivals.len() > 0 {
        lemma_pairing_by_arrival(arrivals.drop_last());
    }
}

/// Every second arrival makes a pair with the one before it, and no other
/// pair is made: when the player at index `k` of `arrivals` becomes ready,
/// the queue gives the pair of the arrivals `k - 1` and `k` where `k` is
/// odd, and no pair where it is even.
pub proof fn lemma_pair_of_arrival(arrivals: Seq<u64>, k: int)
    requires
        0 <= k < arrivals.len(),
    ensures
        ({
            let queue = waiting_after(arrivals.take(k)).push(arrivals[k]);
            if k % 2 == 1 {
                pair_count(queue) == 1 && pair_at(queue, 0) == (arrivals[k - 1], arrivals[k])
            } else {
                pair_count(queue) == 0
            }
        }),
{
    lemma_pairing_by_arrival(arrivals.take(k));
}

} // verus!
