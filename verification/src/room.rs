use std::collections::HashMap;
use vstd::prelude::*;

use crate::actor::{ActorMessage, SystemMessage};
use crate::buff_effect::ExceptionEffect;
use crate::message::RoomAction;
use crate::sprites::skills::Skill;
use crate::sprites::Sprite;

verus! {

broadcast use vstd::std_specs::hash::group_hash_axioms;

/// How long a room waits for both sprite teams, in milliseconds.
pub const TEAMS_DEADLINE_MS: u64 = 60_000;

/// How long a turn lasts, in milliseconds.
pub const TURN_DEADLINE_MS: u64 = 10_000;

/// How often a room looks at its deadline, in milliseconds. A deadline is
/// noticed up to one tick after it has passed.
pub const TICK_MS: u64 = 1_000;

/// Whether a deadline set at `now`, `span` milliseconds ahead, still fits
/// the clock. Times are milliseconds on a clock that never runs backwards.
pub open spec fn deadline_fits(now: u64, span: u64) -> bool {
    now + span <= u64::MAX
}

/// The phase of a match.
#[derive(Debug, Clone, Copy, PartialEq, Eq, Structural)]
pub enum PKState {
    /// The room exists; nothing is awaited yet.
    Start,
    /// Both players are to submit their sprite teams before `deadline`.
    WaitingSpriteTeams { deadline: u64 },
    /// Both players are to submit an action before `turn_deadline`.
    WaitingSkillAttack { turn_deadline: u64 },
    /// The match is over. No phase follows.
    Ended,
}

impl Default for PKState {
    fn default() -> (state: Self)
        ensures
            state == PKState::Start,
    {
        PKState::Start
    }
}

impl PKState {
    pub open spec fn after_start_waiting_teams(self, now: u64) -> PKState {
        if self is Start {
            PKState::WaitingSpriteTeams { deadline: (now + TEAMS_DEADLINE_MS) as u64 }
        } else {
            self
        }
    }

    pub open spec fn after_start_waiting_skill(self, now: u64) -> PKState {
        if self is WaitingSpriteTeams {
            PKState::WaitingSkillAttack { turn_deadline: (now + TURN_DEADLINE_MS) as u64 }
        } else {
            self
        }
    }

    pub open spec fn after_next_turn(self, now: u64) -> PKState {
        if self is WaitingSkillAttack {
            PKState::WaitingSkillAttack { turn_deadline: (now + TURN_DEADLINE_MS) as u64 }
        } else {
            self
        }
    }

    /// Whether the deadline of this phase has passed at `now`. Only the two
    /// waiting phases have one.
    pub open spec fn timed_out(self, now: u64) -> bool {
        match self {
            PKState::WaitingSpriteTeams { deadline } => now > deadline,
            PKState::WaitingSkillAttack { turn_deadline } => now > turn_deadline,
            _ => false,
        }
    }

    /// What a timeout makes of this phase: waiting for teams ends the match,
    /// waiting for actions starts a fresh turn.
    pub open spec fn after_timeout(self, now: u64) -> PKState {
        match self {
            PKState::WaitingSpriteTeams { .. } => PKState::Ended,
            PKState::WaitingSkillAttack { .. } => self.after_next_turn(now),
            _ => self,
        }
    }

    /// From `Start`, begins to wait for the sprite teams.
    pub fn start_waiting_teams(&mut self, now: u64)
        requires
            deadline_fits(now, TEAMS_DEADLINE_MS),
        ensures
            *final(self) == old(self).after_start_waiting_teams(now),
    {
        if let PKState::Start = self {
            *self = PKState::WaitingSpriteTeams { deadline: now + TEAMS_DEADLINE_MS };
        }
    }

    /// From waiting for the teams, begins to wait for the first actions.
    pub fn start_waiting_skill(&mut self, now: u64)
        requires
            deadline_fits(now, TURN_DEADLINE_MS),
        ensures
            *final(self) == old(self).after_start_waiting_skill(now),
    {
        if let PKState::WaitingSpriteTeams { .. } = self {
            *self = PKState::WaitingSkillAttack { turn_deadline: now + TURN_DEADLINE_MS };
        }
    }

    pub fn is_timeout(&self, now: u64) -> (late: bool)
        ensures
            late == self.timed_out(now),
    {
        match self {
            PKState::WaitingSpriteTeams { deadline } => now > *deadline,
            PKState::WaitingSkillAttack { turn_deadline } => now > *turn_deadline,
            _ => false,
        }
    }

    /// While waiting for actions, starts a fresh turn.
    pub fn next_turn(&mut self, now: u64)
        requires
            deadline_fits(now, TURN_DEADLINE_MS),
        ensures
            *final(self) == old(self).after_next_turn(now),
    {
        if let PKState::WaitingSkillAttack { .. } = self {
            *self = PKState::WaitingSkillAttack { turn_deadline: now + TURN_DEADLINE_MS };
        }
    }

    pub fn end_battle(&mut self)
        ensures
            *final(self) == PKState::Ended,
    {
        *self = PKState::Ended;
    }
}

/// Why an action in a room was refused. A refused action changes nothing.
#[derive(Debug, Clone, Copy, PartialEq, Eq, Structural)]
pub enum RoomError {
    /// The player has no team, or the team has no sprite at that index.
    SpriteNotFound,
    /// The sprite has no health left.
    SpriteFainted,
}

impl RoomError {
    /// The text of this error.
    pub fn message(&self) -> (text: String)
        ensures
            text@ == match self {
                RoomError::SpriteNotFound => "目标精灵不存在"@,
                RoomError::SpriteFainted => "目标精灵生命值小于等于0"@,
            },
    {
        match self {
            RoomError::SpriteNotFound => "目标精灵不存在".to_string(),
            RoomError::SpriteFainted => "目标精灵生命值小于等于0".to_string(),
        }
    }
}

/// A sprite together with the skill it is about to use.
#[derive(Debug)]
pub struct BattleSprite {
    pub sprite: Sprite,
    pub skill: Skill,
}

/// The state of a match as plain maps, each keyed by player id.
#[verifier::ext_equal]
pub struct MatchState {
    /// The sprite team of each player who has submitted one.
    pub teams: Map<u64, Vec<Sprite>>,
    /// The status condition of each player who is under one.
    pub effects: Map<u64, ExceptionEffect>,
    /// The action of each player who has submitted one this turn.
    pub pending: Map<u64, RoomAction>,
    /// For each player with a sprite on the field, its index in the team.
    pub active: Map<u64, usize>,
    pub phase: PKState,
}

impl MatchState {
    /// Every sprite on the field is a sprite of its player's team, and has
    /// health left.
    pub open spec fn wf(self) -> bool {
        forall|p: u64| #[trigger]
            self.active.contains_key(p) ==> self.can_field(p, self.active[p])
    }

    /// Whether player `p` has a sprite at `index` that can take the field.
    pub open spec fn can_field(self, p: u64, index: usize) -> bool {
        self.switch_outcome(p, index) is Ok
    }

    pub open spec fn teams_ready(self) -> bool {
        self.teams.len() == 2
    }

    /// Whether the turn can be resolved after a player has submitted an
    /// action: both have, or the other one, `other`, is kept from acting.
    pub open spec fn actions_ready(self, other: u64) -> bool {
        (self.effects.contains_key(other) && self.effects[other].prevents_action())
            || self.pending.len() == 2
    }

    /// Whether player `p` may put the sprite at `index` on the field.
    pub open spec fn switch_outcome(self, p: u64, index: usize) -> Result<(), RoomError> {
        if !self.teams.contains_key(p) || index >= self.teams[p].len() {
            Err(RoomError::SpriteNotFound)
        } else if self.teams[p][index as int].hp == 0 {
            Err(RoomError::SpriteFainted)
        } else {
            Ok(())
        }
    }

    pub open spec fn after_switch(self, p: u64, index: usize) -> MatchState {
        if self.switch_outcome(p, index) is Ok {
            MatchState { active: self.active.insert(p, index), ..self }
        } else {
            self
        }
    }

    /// Whether a team can be submitted: its first sprite takes the field,
    /// so there must be one, with health left.
    pub open spec fn team_fit(team: Seq<Sprite>) -> bool {
        team.len() > 0 && team[0].hp > 0
    }

    /// The state once player `p` has submitted `team`: the first sprite is
    /// on the field, and with the second team the first turn begins.
    pub open spec fn after_team(self, p: u64, team: Vec<Sprite>, now: u64) -> MatchState {
        let teams = self.teams.insert(p, team);
        MatchState {
            teams,
            active: self.active.insert(p, 0),
            phase: if teams.len() == 2 {
                self.phase.after_start_waiting_skill(now)
            } else {
                self.phase
            },
            ..self
        }
    }

    pub open spec fn with_action(self, p: u64, action: RoomAction) -> MatchState {
        MatchState { pending: self.pending.insert(p, action), ..self }
    }

    pub open spec fn with_effect(self, p: u64, effect: ExceptionEffect) -> MatchState {
        MatchState { effects: self.effects.insert(p, effect), ..self }
    }

    /// The sprite that player `p` has on the field.
    pub open spec fn fielded(self, p: u64) -> Option<Sprite> {
        if self.teams.contains_key(p) && self.active.contains_key(p) && self.active[p]
            < self.teams[p].len() {
            Some(self.teams[p][self.active[p] as int])
        } else {
            None
        }
    }

    /// The action that player `p` hands to the resolution of the turn: the
    /// one it submitted, if it has a sprite on the field.
    pub open spec fn taken_action(self, p: u64) -> Option<RoomAction> {
        if self.fielded(p) is Some && self.pending.contains_key(p) {
            Some(self.pending[p])
        } else {
            None
        }
    }

    pub open spec fn after_taking(self, p: u64) -> MatchState {
        if self.fielded(p) is Some {
            MatchState { pending: self.pending.remove(p), ..self }
        } else {
            self
        }
    }
}

/// The state of a match.
#[derive(Debug)]
pub struct GameState {
    /// The sprite team of each player.
    pub sprite_teams: HashMap<u64, Vec<Sprite>>,
    /// The status condition of each player.
    pub exception_effects: HashMap<u64, ExceptionEffect>,
    /// The action each player has submitted this turn.
    pub room_actions: HashMap<u64, RoomAction>,
    /// The index of the sprite each player has on the field.
    pub current_sprite_players: HashMap<u64, usize>,
    pub pk_state: PKState,
}

impl View for GameState {
    type V = MatchState;

    open spec fn view(&self) -> MatchState {
        MatchState {
            teams: self.sprite_teams@,
            effects: self.exception_effects@,
            pending: self.room_actions@,
            active: self.current_sprite_players@,
            phase: self.pk_state,
        }
    }
}

impl Default for GameState {
    fn default() -> (state: Self)
        ensures
            state@.teams == Map::<u64, Vec<Sprite>>::empty(),
            state@.effects == Map::<u64, ExceptionEffect>::empty(),
            state@.pending == Map::<u64, RoomAction>::empty(),
            state@.active == Map::<u64, usize>::empty(),
            state@.phase == PKState::Start,
            state@.wf(),
    {
        GameState {
            sprite_teams: HashMap::new(),
            exception_effects: HashMap::new(),
            room_actions: HashMap::new(),
            current_sprite_players: HashMap::new(),
            pk_state: PKState::Start,
        }
    }
}

impl GameState {
    /// Whether both players have submitted their sprite teams.
    pub fn is_teams_ready(&self) -> (ready: bool)
        ensures
            ready == self@.teams_ready(),
    {
        self.sprite_teams.len() == 2
    }

    /// Whether the turn can be resolved, where `another_player_id` is the
    /// opponent of the player who has just submitted an action.
    pub fn is_room_actions_ready(&self, another_player_id: u64) -> (ready: bool)
        ensures
            ready == self@.actions_ready(another_player_id),
    {
        if let Some(exception_effect) = self.exception_effects.get(&another_player_id) {
            if exception_effect.prevents_action() {
                return true;
            }
        }
        self.room_actions.len() == 2
    }

    /// Whether a sprite can be caught. Never, between two players.
    pub fn is_catch_sprite_ready(&self) -> (ready: bool)
        ensures
            !ready,
    {
        false
    }

    pub fn is_end(&self) -> (ended: bool)
        ensures
            ended == (self@.phase is Ended),
    {
        matches!(self.pk_state, PKState::Ended)
    }

    /// Puts the sprite at `sprite_index` of the team of `player_id` on the
    /// field. A sprite that is not there, or has fainted, is refused, and
    /// the state stays as it was.
    pub fn switch_current_sprite(&mut self, player_id: u64, sprite_index: usize) -> (outcome:
        Result<(), RoomError>)
        ensures
            outcome == old(self)@.switch_outcome(player_id, sprite_index),
            final(self)@ == old(self)@.after_switch(player_id, sprite_index),
            outcome is Err ==> *final(self) == *old(self),
            old(self)@.wf() ==> final(self)@.wf(),
    {
        let fit = match self.sprite_teams.get(&player_id) {
            Some(team) => {
                if sprite_index < team.len() {
                    if team[sprite_index].hp > 0 {
                        Ok(())
                    } else {
                        Err(RoomError::SpriteFainted)
                    }
                } else {
                    Err(RoomError::SpriteNotFound)
                }
            },
            None => Err(RoomError::SpriteNotFound),
        };
        if fit.is_ok() {
            self.current_sprite_players.insert(player_id, sprite_index);
        }
        fit
    }

    /// Puts `player_id` under a status condition, in place of the one it
    /// was under.
    pub fn set_exception_effect(&mut self, player_id: u64, effect: ExceptionEffect)
        ensures
            final(self)@ == old(self)@.with_effect(player_id, effect),
            old(self)@.wf() ==> final(self)@.wf(),
    {
        self.exception_effects.insert(player_id, effect);
    }
}

/// What the mailbox of a room's actor holds.
#[derive(Debug, Clone)]
pub enum RoomActorMessage {
    /// A player submits its sprite team.
    SpriteTeam { player_id: u64, sprite_team: Vec<Sprite> },
    /// The room is to close: the actor is to end.
    Close,
    /// A player acts.
    RoomAction(RoomAction),
}

/// What a room's actor waits for: the next tick of its timer, or the next
/// message in its mailbox.
#[derive(Debug, Clone)]
pub enum RoomEvent {
    Tick,
    Message(RoomActorMessage),
}

/// What is to be done outside the room after an event.
#[derive(Debug, Clone)]
pub enum RoomEffect {
    Nothing,
    /// Send `message` to the player `target`, if it is still connected.
    Notify { target: u64, message: ActorMessage },
    /// The turn is ready: hand the actions of the first and of the second
    /// player to the resolution of the turn.
    ResolveTurn { first: Option<RoomAction>, second: Option<RoomAction> },
    /// The action was refused, and changed nothing.
    Rejected(RoomError),
}

/// The answer of a room's actor to one event.
#[derive(Debug, Clone)]
pub struct RoomStep {
    pub effect: RoomEffect,
    /// Whether the actor is to end.
    pub finished: bool,
}

/// A room as plain values.
#[verifier::ext_equal]
pub struct RoomView {
    pub room_id: u64,
    pub players: [u64; 2],
    pub state: MatchState,
}

impl RoomView {
    pub open spec fn is_player(self, p: u64) -> bool {
        self.players[0] == p || self.players[1] == p
    }

    /// The player that `p` plays against.
    pub open spec fn opponent_of(self, p: u64) -> u64 {
        if self.players[0] == p {
            self.players[1]
        } else {
            self.players[0]
        }
    }

    /// The state is well formed, only the two players of the room have a
    /// team, every player with a team has a sprite on the field, and while
    /// actions are awaited both players have a team.
    pub open spec fn wf(self) -> bool {
        &&& self.state.wf()
        &&& self.state.teams.dom().finite()
        &&& forall|p: u64| #[trigger] self.state.teams.contains_key(p) ==> self.is_player(p)
        &&& forall|p: u64| #[trigger]
            self.state.teams.contains_key(p) ==> self.state.active.contains_key(p)
        &&& self.state.phase is WaitingSkillAttack ==> self.state.teams.len() == 2
    }

    /// A new room, which waits for the sprite teams of its two players.
    pub open spec fn initial(room_id: u64, players: [u64; 2], now: u64) -> RoomView {
        RoomView {
            room_id,
            players,
            state: MatchState {
                teams: Map::empty(),
                effects: Map::empty(),
                pending: Map::empty(),
                active: Map::empty(),
                phase: PKState::Start.after_start_waiting_teams(now),
            },
        }
    }

    /// Whether the room takes the team that `p` submits.
    pub open spec fn takes_team(self, p: u64, team: Vec<Sprite>) -> bool {
        self.is_player(p) && MatchState::team_fit(team@)
    }

    /// The room once the resolution of the turn has taken the actions of
    /// both players.
    pub open spec fn after_resolve(self) -> RoomView {
        RoomView {
            state: self.state.after_taking(self.players[0]).after_taking(self.players[1]),
            ..self
        }
    }

    /// What the resolution of the turn is handed.
    pub open spec fn resolve_effect(self) -> RoomEffect {
        RoomEffect::ResolveTurn {
            first: self.state.taken_action(self.players[0]),
            second: self.state.after_taking(self.players[0]).taken_action(self.players[1]),
        }
    }

    /// The room once `p` has submitted `action`: the action is recorded,
    /// and where the turn is then ready, it is resolved.
    pub open spec fn after_submit(self, p: u64, action: RoomAction) -> RoomView {
        let recorded = RoomView { state: self.state.with_action(p, action), ..self };
        if recorded.state.actions_ready(self.opponent_of(p)) {
            recorded.after_resolve()
        } else {
            recorded
        }
    }

    pub open spec fn submit_effect(self, p: u64, action: RoomAction) -> RoomEffect {
        let recorded = RoomView { state: self.state.with_action(p, action), ..self };
        if recorded.state.actions_ready(self.opponent_of(p)) {
            recorded.resolve_effect()
        } else {
            RoomEffect::Nothing
        }
    }

    /// The room after an action of a player.
    pub open spec fn after_action(self, action: RoomAction) -> RoomView {
        match action {
            RoomAction::SkillAttack { player_id, .. } => self.after_submit(player_id, action),
            RoomAction::SwitchSprite { player_id, sprite_index } => {
                if self.state.switch_outcome(player_id, sprite_index) is Ok {
                    RoomView { state: self.state.after_switch(player_id, sprite_index), ..self }
                        .after_submit(player_id, action)
                } else {
                    self
                }
            },
            RoomAction::UseItem { player_id, .. } => self.after_submit(player_id, action),
            RoomAction::CatchSprite => self,
            RoomAction::Escape(_) => RoomView {
                state: MatchState { phase: PKState::Ended, ..self.state },
                ..self
            },
        }
    }

    /// What an action of a player leads to outside the room, or why it is
    /// refused.
    pub open spec fn action_outcome(self, action: RoomAction) -> Result<RoomEffect, RoomError> {
        match action {
            RoomAction::SkillAttack { player_id, .. } => Ok(self.submit_effect(player_id, action)),
            RoomAction::SwitchSprite { player_id, sprite_index } => {
                match self.state.switch_outcome(player_id, sprite_index) {
                    Ok(_) => Ok(
                        RoomView {
                            state: self.state.after_switch(player_id, sprite_index),
                            ..self
                        }.submit_effect(player_id, action),
                    ),
                    Err(e) => Err(e),
                }
            },
            RoomAction::UseItem { player_id, .. } => Ok(self.submit_effect(player_id, action)),
            RoomAction::CatchSprite => Ok(RoomEffect::Nothing),
            RoomAction::Escape(player_id) => Ok(
                RoomEffect::Notify {
                    target: self.opponent_of(player_id),
                    message: ActorMessage::SystemNotification(SystemMessage::Escape(player_id)),
                },
            ),
        }
    }

    /// The room after a tick of its timer at `now`.
    pub open spec fn after_tick(self, now: u64) -> RoomView {
        if self.state.phase.timed_out(now) {
            RoomView {
                state: MatchState { phase: self.state.phase.after_timeout(now), ..self.state },
                ..self
            }
        } else {
            self
        }
    }

    /// The room after an event at `now`.
    pub open spec fn after_event(self, event: RoomEvent, now: u64) -> RoomView {
        match event {
            RoomEvent::Tick => self.after_tick(now),
            RoomEvent::Message(RoomActorMessage::SpriteTeam { player_id, sprite_team }) => {
                if self.takes_team(player_id, sprite_team) {
                    RoomView { state: self.state.after_team(player_id, sprite_team, now), ..self }
                } else {
                    self
                }
            },
            RoomEvent::Message(RoomActorMessage::Close) => self,
            RoomEvent::Message(RoomActorMessage::RoomAction(action)) => self.after_action(action),
        }
    }

    /// What an event leads to outside the room.
    pub open spec fn event_effect(self, event: RoomEvent) -> RoomEffect {
        match event {
            RoomEvent::Message(RoomActorMessage::RoomAction(action)) => {
                match self.action_outcome(action) {
                    Ok(effect) => effect,
                    Err(e) => RoomEffect::Rejected(e),
                }
            },
            _ => RoomEffect::Nothing,
        }
    }

    /// Whether the actor ends after an event: it was told to close, or the
    /// match is over.
    pub open spec fn ends_on(self, event: RoomEvent, now: u64) -> bool {
        event == RoomEvent::Message(RoomActorMessage::Close) || self.after_event(
            event,
            now,
        ).state.phase is Ended
    }
}

/// Among at most two candidates, a set of two members holds both.
proof fn lemma_both_present(members: Set<u64>, a: u64, b: u64, p: u64)
    requires
        members.finite(),
        members.len() == 2,
        forall|q: u64| members.contains(q) ==> q == a || q == b,
        p == a || p == b,
    ensures
        members.contains(p),
{
    if !members.contains(p) {
        let other = if p == a { b } else { a };
        let single = Set::<u64>::empty().insert(other);
        vstd::set_lib::lemma_len_subset(members, single);
    }
}

/// The actor of one room: the match of two players.
#[derive(Debug)]
pub struct RoomActor {
    room_id: u64,
    players: [u64; 2],
    game_state: GameState,
}

impl View for RoomActor {
    type V = RoomView;

    closed spec fn view(&self) -> RoomView {
        RoomView { room_id: self.room_id, players: self.players, state: self.game_state@ }
    }
}

impl RoomActor {
    /// A room for `players`, which from `now` on waits for their teams.
    pub fn new(room_id: u64, players: [u64; 2], now: u64) -> (room: Self)
        requires
            deadline_fits(now, TEAMS_DEADLINE_MS),
        ensures
            room@ == RoomView::initial(room_id, players, now),
            room@.wf(),
    {
        let mut game_state = GameState::default();
        game_state.pk_state.start_waiting_teams(now);
        RoomActor { room_id, players, game_state }
    }

    pub fn room_id(&self) -> (id: u64)
        ensures
            id == self@.room_id,
    {
        self.room_id
    }

    pub fn players(&self) -> (players: [u64; 2])
        ensures
            players == self@.players,
    {
        self.players
    }

    pub fn game_state(&self) -> (state: &GameState)
        ensures
            state@ == self@.state,
    {
        &self.game_state
    }

    /// Runs the actor for one event, a tick of its timer or a message of
    /// its mailbox, at `now`.
    pub fn run(&mut self, event: RoomEvent, now: u64) -> (step: RoomStep)
        requires
            old(self)@.wf(),
            deadline_fits(now, TURN_DEADLINE_MS),
        ensures
            final(self)@ == old(self)@.after_event(event, now),
            final(self)@.wf(),
            step.effect == old(self)@.event_effect(event),
            step.finished == old(self)@.ends_on(event, now),
    {
        let effect = match event {
            RoomEvent::Tick => {
                if self.game_state.pk_state.is_timeout(now) {
                    self.handle_timeout(now);
                }
                RoomEffect::Nothing
            },
            RoomEvent::Message(RoomActorMessage::SpriteTeam { player_id, sprite_team }) => {
                self.submit_sprite_team(player_id, sprite_team, now);
                RoomEffect::Nothing
            },
            RoomEvent::Message(RoomActorMessage::Close) => {
                return RoomStep { effect: RoomEffect::Nothing, finished: true };
            },
            RoomEvent::Message(RoomActorMessage::RoomAction(room_action)) => {
                match self.handle_room_action(room_action) {
                    Ok(effect) => effect,
                    Err(e) => RoomEffect::Rejected(e),
                }
            },
        };
        RoomStep { effect, finished: self.game_state.is_end() }
    }

    /// Puts a player under a status condition, in place of the one it was
    /// under. This is how the resolution of a turn reports a condition.
    pub fn set_exception_effect(&mut self, player_id: u64, effect: ExceptionEffect)
        requires
            old(self)@.wf(),
        ensures
            final(self)@ == (RoomView {
                state: old(self)@.state.with_effect(player_id, effect),
                ..old(self)@
            }),
            final(self)@.wf(),
    {
        self.game_state.set_exception_effect(player_id, effect);
    }

    /// Takes the team of a player of this room, puts its first sprite on
    /// the field and, with the second team, begins the first turn. A team
    /// of another player, or one whose first sprite cannot take the field,
    /// is left aside.
    pub fn submit_sprite_team(&mut self, player_id: u64, sprite_team: Vec<Sprite>, now: u64)
        requires
            old(self)@.wf(),
            deadline_fits(now, TURN_DEADLINE_MS),
        ensures
            final(self)@ == if old(self)@.takes_team(player_id, sprite_team) {
                RoomView {
                    state: old(self)@.state.after_team(player_id, sprite_team, now),
                    ..old(self)@
                }
            } else {
                old(self)@
            },
            final(self)@.wf(),
    {
        let member = self.players[0] == player_id || self.players[1] == player_id;
        if member && sprite_team.len() > 0 && sprite_team[0].hp > 0 {
            proof {
                if self@.state.phase is WaitingSkillAttack {
                    lemma_both_present(
                        self@.state.teams.dom(),
                        self.players[0],
                        self.players[1],
                        player_id,
                    );
                }
            }
            self.game_state.sprite_teams.insert(player_id, sprite_team);
            self.game_state.current_sprite_players.insert(player_id, 0);
            if self.game_state.is_teams_ready() {
                self.game_state.pk_state.start_waiting_skill(now);
            }
        }
    }

    /// Handles an action of a player: records it and, where the turn is
    /// then ready, resolves it. A switch to a sprite that cannot take the
    /// field is refused. An escape ends the match and is told to the
    /// opponent.
    pub fn handle_room_action(&mut self, room_action: RoomAction) -> (outcome: Result<
        RoomEffect,
        RoomError,
    >)
        requires
            old(self)@.wf(),
        ensures
            final(self)@ == old(self)@.after_action(room_action),
            final(self)@.wf(),
            outcome == old(self)@.action_outcome(room_action),
    {
        match room_action {
            RoomAction::SkillAttack { player_id, .. } => Ok(self.submit(player_id, room_action)),
            RoomAction::SwitchSprite { player_id, sprite_index } => {
                match self.game_state.switch_current_sprite(player_id, sprite_index) {
                    Ok(_) => Ok(self.submit(player_id, room_action)),
                    Err(e) => Err(e),
                }
            },
            RoomAction::UseItem { player_id, .. } => Ok(self.submit(player_id, room_action)),
            RoomAction::CatchSprite => {
                if self.game_state.is_catch_sprite_ready() {
                }
                Ok(RoomEffect::Nothing)
            },
            RoomAction::Escape(player_id) => {
                let target = self.get_target_player_id(player_id);
                self.game_state.pk_state.end_battle();
                Ok(
                    RoomEffect::Notify {
                        target,
                        message: ActorMessage::SystemNotification(SystemMessage::Escape(player_id)),
                    },
                )
            },
        }
    }

    /// Records the action of a player and resolves the turn where it is
    /// ready.
    fn submit(&mut self, player_id: u64, room_action: RoomAction) -> (effect: RoomEffect)
        requires
            old(self)@.wf(),
        ensures
            final(self)@ == old(self)@.after_submit(player_id, room_action),
            final(self)@.wf(),
            effect == old(self)@.submit_effect(player_id, room_action),
    {
        self.game_state.room_actions.insert(player_id, room_action);
        let other = self.get_target_player_id(player_id);
        if self.game_state.is_room_actions_ready(other) {
            self.handle_room_actions()
        } else {
            RoomEffect::Nothing
        }
    }

    /// Hands the turn to its resolution: takes the submitted action of each
    /// player, the first player's first.
    fn handle_room_actions(&mut self) -> (effect: RoomEffect)
        requires
            old(self)@.wf(),
        ensures
            final(self)@ == old(self)@.after_resolve(),
            final(self)@.wf(),
            effect == old(self)@.resolve_effect(),
    {
        let first = self.sprite_and_skill(0);
        let second = self.sprite_and_skill(1);
        RoomEffect::ResolveTurn { first, second }
    }

    /// Takes the submitted action of the first (`index` 0) or the second
    /// (`index` 1) player, provided that it has a sprite on the field.
    pub fn sprite_and_skill(&mut self, index: usize) -> (action: Option<RoomAction>)
        requires
            index < 2,
            old(self)@.wf(),
        ensures
            action == old(self)@.state.taken_action(old(self)@.players[index as int]),
            final(self)@ == (RoomView {
                state: old(self)@.state.after_taking(old(self)@.players[index as int]),
                ..old(self)@
            }),
            final(self)@.wf(),
    {
        let player_id = self.players[index];
        if self.current_sprite(player_id).is_none() {
            return None;
        }
        self.game_state.room_actions.remove(&player_id)
    }

    /// The sprite that a player has on the field.
    pub fn current_sprite(&self, player_id: u64) -> (sprite: Option<&Sprite>)
        ensures
            match sprite {
                Some(s) => self@.state.fielded(player_id) == Some(*s),
                None => self@.state.fielded(player_id) is None,
            },
    {
        let sprite_team = match self.game_state.sprite_teams.get(&player_id) {
            Some(team) => team,
            None => {
                return None;
            },
        };
        let current_sprite_index = match self.game_state.current_sprite_players.get(&player_id) {
            Some(index) => *index,
            None => {
                return None;
            },
        };
        if current_sprite_index < sprite_team.len() {
            Some(&sprite_team[current_sprite_index])
        } else {
            None
        }
    }

    /// Answers a passed deadline: without both teams the match ends, and a
    /// turn without both actions gives way to a fresh one. No action is
    /// made up for a player who has not acted, and what was submitted stays
    /// submitted.
    pub fn handle_timeout(&mut self, now: u64)
        requires
            old(self)@.wf(),
            deadline_fits(now, TURN_DEADLINE_MS),
        ensures
            final(self)@ == (RoomView {
                state: MatchState {
                    phase: old(self)@.state.phase.after_timeout(now),
                    ..old(self)@.state
                },
                ..old(self)@
            }),
            final(self)@.wf(),
    {
        match self.game_state.pk_state {
            PKState::WaitingSpriteTeams { .. } => {
                self.game_state.pk_state = PKState::Ended;
            },
            PKState::WaitingSkillAttack { .. } => {
                self.game_state.pk_state.next_turn(now);
            },
            _ => {},
        }
    }

    /// The opponent of a player.
    pub fn get_target_player_id(&self, player_id: u64) -> (target: u64)
        ensures
            target == self@.opponent_of(player_id),
    {
        if self.players[0] == player_id {
            self.players[1]
        } else {
            self.players[0]
        }
    }
}

/// A match that is not over ends by one of two events only: a tick after
/// the deadline for the sprite teams has passed, or the escape of a player.
pub proof fn lemma_ends_only_by_timeout_or_escape(room: RoomView, event: RoomEvent, now: u64)
    requires
        !(room.state.phase is Ended),
        room.after_event(event, now).state.phase is Ended,
    ensures
        (event is Tick && room.state.phase is WaitingSpriteTeams && room.state.phase.timed_out(
            now,
        )) || (event matches RoomEvent::Message(
            RoomActorMessage::RoomAction(RoomAction::Escape(_)),
        )),
{
}

/// A switch to a sprite that has no health left is refused, and the room,
/// with the sprites on the field, stays as it was.
pub proof fn lemma_fainted_switch_refused(room: RoomView, player_id: u64, sprite_index: usize)
    requires
        room.state.teams.contains_key(player_id),
        sprite_index < room.state.teams[player_id].len(),
        room.state.teams[player_id][sprite_index as int].hp == 0,
    ensures
        room.action_outcome(RoomAction::SwitchSprite { player_id, sprite_index }) == Err::<
            RoomEffect,
            RoomError,
        >(RoomError::SpriteFainted),
        room.after_action(RoomAction::SwitchSprite { player_id, sprite_index }) == room,
        room.after_action(RoomAction::SwitchSprite { player_id, sprite_index }).state.active
            == room.state.active,
{
}

/// The first turn begins at no other moment than when a team is taken and
/// two teams are then there.
pub proof fn lemma_turns_begin_with_two_teams(room: RoomView, event: RoomEvent, now: u64)
    requires
        !(room.state.phase is WaitingSkillAttack),
        room.after_event(event, now).state.phase is WaitingSkillAttack,
    ensures
        room.state.phase is WaitingSpriteTeams,
        event is Message,
        event->Message_0 is SpriteTeam,
        room.after_event(event, now).state.teams.len() == 2,
{
}

/// While actions are awaited, the two players of a room are two, both
/// have a team, and both have a sprite on the field.
pub proof fn lemma_both_players_fielded(room: RoomView)
    requires
        room.wf(),
        room.state.phase is WaitingSkillAttack,
    ensures
        room.players[0] != room.players[1],
        room.state.fielded(room.players[0]) is Some,
        room.state.fielded(room.players[1]) is Some,
{
    let members = room.state.teams.dom();
    lemma_both_present(members, room.players[0], room.players[1], room.players[0]);
    lemma_both_present(members, room.players[0], room.players[1], room.players[1]);
    if room.players[0] == room.players[1] {
        let single = Set::<u64>::empty().insert(room.players[0]);
        assert(members.subset_of(single));
        vstd::set_lib::lemma_len_subset(members, single);
    }
}

/// Once both players have acted, the turn is resolved and nothing is
/// pending: where only the opponent's action is pending and a player
/// submits its own, both actions are handed to the resolution of the turn,
/// the first player's first, and none is left.
pub proof fn lemma_resolved_turn_clears_pending(room: RoomView, player_id: u64, action: RoomAction)
    requires
        room.wf(),
        room.state.phase is WaitingSkillAttack,
        room.is_player(player_id),
        room.state.pending.dom() == Set::<u64>::empty().insert(room.opponent_of(player_id)),
    ensures
        room.after_submit(player_id, action).state.pending == Map::<u64, RoomAction>::empty(),
        room.submit_effect(player_id, action) == (RoomEffect::ResolveTurn {
            first: Some(
                if player_id == room.players[0] {
                    action
                } else {
                    room.state.pending[room.players[0]]
                },
            ),
            second: Some(
                if player_id == room.players[0] {
                    room.state.pending[room.players[1]]
                } else {
                    action
                },
            ),
        }),
{
    lemma_both_players_fielded(room);
    let other = room.opponent_of(player_id);
    let recorded = room.state.with_action(player_id, action);
    assert(recorded.pending.dom() =~= Set::<u64>::empty().insert(other).insert(player_id));
    assert(recorded.pending.len() == 2);
    assert(room.after_submit(player_id, action).state.pending =~= Map::<u64, RoomAction>::empty());
}

/// What a passed deadline makes of each phase: waiting for the teams
/// ends the match; waiting for actions goes on with a deadline
/// `TURN_DEADLINE_MS` after `now`; and `Start` and `Ended` stay.
pub proof fn lemma_timeout_by_phase(phase: PKState, now: u64)
    ensures
        phase is WaitingSpriteTeams ==> phase.after_timeout(now) == PKState::Ended,
        phase is WaitingSkillAttack ==> phase.after_timeout(now) is WaitingSkillAttack,
        phase is WaitingSkillAttack && deadline_fits(now, TURN_DEADLINE_MS)
            ==> phase.after_timeout(now) == (PKState::WaitingSkillAttack {
            turn_deadline: (now + TURN_DEADLINE_MS) as u64,
        }) && phase.after_timeout(now)->turn_deadline == now + TURN_DEADLINE_MS,
        phase is Start ==> phase.after_timeout(now) == PKState::Start,
        phase is Ended ==> phase.after_timeout(now) == PKState::Ended,
        phase.after_timeout(now) is Ended <==> phase is WaitingSpriteTeams || phase is Ended,
{
}

/// A tick changes nothing but the phase, and the phase only where its
/// deadline has passed: teams, conditions, pending actions and the sprites
/// on the field stay.
pub proof fn lemma_tick_changes_phase_only(room: RoomView, now: u64)
    ensures
        room.after_tick(now).room_id == room.room_id,
        room.after_tick(now).players == room.players,
        room.after_tick(now).state.teams == room.state.teams,
        room.after_tick(now).state.effects == room.state.effects,
        room.after_tick(now).state.pending == room.state.pending,
        room.after_tick(now).state.active == room.state.active,
        !room.state.phase.timed_out(now) ==> room.after_tick(now).state.phase
            == room.state.phase,
        room.state.phase.timed_out(now) ==> room.after_tick(now).state.phase
            == room.state.phase.after_timeout(now),
{
}

} // verus!
