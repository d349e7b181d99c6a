use vstd::prelude::*;
use vstd::string::*;

use crate::events::ServerEvent;
use crate::message::{ClientAction, ClientMessage, ClientPayload, RoomAction, ServerPayload};
use crate::room::RoomActorMessage;
use crate::room_manager::RoomManager;
use crate::security::{validate_token, Claims, TokenError};
use crate::sprites::attributes::{Attribute, SkillType};
use crate::sprites::skills::Skill;
use crate::sprites::Sprite;
use crate::status::PlayerSession;
use crate::text::{decimal, decimal_digits};

verus! {

/// What the mailbox of a player's actor holds.
#[derive(Debug, Clone)]
pub enum ActorMessage {
    /// A decoded message of the player's client.
    ClientMessage(ClientMessage),
    /// A notification from another part of the server.
    SystemNotification(SystemMessage),
    /// The connection is gone: the actor is to end.
    Disconnect,
}

/// A notification of the server to a player's actor.
#[derive(Debug, Clone)]
pub enum SystemMessage {
    /// The player was matched and enters a room.
    EnterRoom { room_id: u64, opponent_name: String },
    /// The named player fled from the match.
    Escape(u64),
}

/// What is to be done outside the actor after a message.
#[derive(Debug, Clone)]
pub enum PlayerAction {
    Nothing,
    /// Publish the event on the bus.
    Publish(ServerEvent),
    /// Send the message to the mailbox of the room. With `must_reach`, a
    /// closed mailbox is an error that ends the actor; without, the message
    /// is dropped.
    SendToRoom { room_id: u64, message: RoomActorMessage, must_reach: bool },
    /// Unregister the player, and end the actor.
    Disconnect { player_id: u64 },
}

/// The six random bytes from which the stats of a preset sprite are drawn.
#[derive(Debug, Clone, Copy)]
pub struct StatRolls {
    pub hp: u8,
    pub phy_atk: u8,
    pub phy_def: u8,
    pub mag_atk: u8,
    pub mag_def: u8,
    pub speed: u8,
}

/// Whether `skill` is the basic physical attack with the given id.
pub open spec fn is_basic_attack(skill: Skill, id: u64) -> bool {
    &&& skill.id == id
    &&& skill.name@ == "普通攻击"@
    &&& skill.description@ == "普通物理攻击"@
    &&& skill.skill_type is Physical
    &&& skill.attribute == Attribute::Huo
    &&& skill.pp == 10
    &&& skill.max_pp == 10
    &&& skill.power == 100
    &&& skill.special_effect is None
    &&& !skill.is_preemptive
}

/// Whether `sprite` is the preset sprite with the given id and rolls: a
/// sprite of level 100 in full health, with two basic attacks, whose stats
/// each lie in a band above a base value.
pub open spec fn is_preset_sprite(sprite: Sprite, id: u64, rolls: StatRolls) -> bool {
    &&& sprite.id == id
    &&& sprite.level == 100
    &&& sprite.exp == 9999
    &&& sprite.max_exp == 10000
    &&& sprite.hp == 350 + rolls.hp % 101
    &&& sprite.max_hp == sprite.hp
    &&& sprite.phy_atk == 350 + rolls.phy_atk % 51
    &&& sprite.phy_def == 240 + rolls.phy_def % 51
    &&& sprite.mag_atk == 340 + rolls.mag_atk % 51
    &&& sprite.mag_def == 230 + rolls.mag_def % 51
    &&& sprite.speed == 300 + rolls.speed % 101
    &&& sprite.skills@.len() == 2
    &&& is_basic_attack(sprite.skills@[0], 1)
    &&& is_basic_attack(sprite.skills@[1], 2)
}

/// Whether `sprite` is the preset sprite with the given id, whatever its
/// rolls.
pub open spec fn is_preset(sprite: Sprite, id: u64) -> bool {
    exists|rolls: StatRolls| is_preset_sprite(sprite, id, rolls)
}

/// Whether `team` is a preset team: six preset sprites, with the ids 0 to
/// 5 in this order.
pub open spec fn is_preset_team(team: Seq<Sprite>) -> bool {
    &&& team.len() == 6
    &&& forall|i: int| 0 <= i < 6 ==> is_preset(#[trigger] team[i], i as u64)
}

/// `rand::random::<u8>`: a byte drawn from the thread's generator, of
/// which nothing is claimed. The call panics where the generator cannot be
/// seeded from the operating system.
#[verifier::external_body]
fn random_u8() -> u8 {
    rand::random::<u8>()
}

fn basic_attack(id: u64) -> (skill: Skill)
    ensures
        is_basic_attack(skill, id),
{
    Skill {
        id,
        name: "普通攻击".to_string(),
        description: "普通物理攻击".to_string(),
        skill_type: SkillType::Physical,
        attribute: Attribute::Huo,
        pp: 10,
        max_pp: 10,
        power: 100,
        special_effect: None,
        is_preemptive: false,
    }
}

/// The preset sprite with the given id and rolls.
pub fn preset_sprite(id: u64, rolls: StatRolls) -> (sprite: Sprite)
    ensures
        is_preset_sprite(sprite, id, rolls),
{
    let hp: u16 = 350 + rolls.hp as u16 % 101;
    let mut skills: Vec<Skill> = Vec::new();
    skills.push(basic_attack(1));
    skills.push(basic_attack(2));
    Sprite {
        id,
        level: 100,
        exp: 9999,
        max_exp: 10000,
        hp,
        max_hp: hp,
        phy_atk: 350 + rolls.phy_atk as u16 % 51,
        phy_def: 240 + rolls.phy_def as u16 % 51,
        mag_atk: 340 + rolls.mag_atk as u16 % 51,
        mag_def: 230 + rolls.mag_def as u16 % 51,
        speed: 300 + rolls.speed as u16 % 101,
        skills,
    }
}

/// The sprite team of a player: a preset team with freshly drawn stats.
pub fn get_sprite_team(player_id: u64) -> (team: Vec<Sprite>)
    ensures
        is_preset_team(team@),
{
    let mut preset_team: Vec<Sprite> = Vec::with_capacity(6);
    let mut i: u64 = 0;
    while i < 6
        invariant
            i <= 6,
            preset_team@.len() == i,
            forall|k: int| 0 <= k < i ==> is_preset(#[trigger] preset_team@[k], k as u64),
        decreases 6 - i,
    {
        let hp = random_u8();
        let phy_atk = random_u8();
        let phy_def = random_u8();
        let mag_atk = random_u8();
        let mag_def = random_u8();
        let speed = random_u8();
        let rolls = StatRolls { hp, phy_atk, phy_def, mag_atk, mag_def, speed };
        let sprite = preset_sprite(i, rolls);
        preset_team.push(sprite);
        i = i + 1;
    }
    preset_team
}

/// The configuration of a skill.
pub fn get_skill(skill_id: u64) -> (skill: Skill)
    ensures
        skill.id == skill_id,
        skill.name@ == "技能"@ + decimal_digits(skill_id as nat),
        skill.description@ == "这是技能"@ + decimal_digits(skill_id as nat) + "的描述"@,
        skill.skill_type is Physical,
        skill.attribute == Attribute::Huo,
        skill.pp == 10,
        skill.max_pp == 10,
        skill.power == 100,
        skill.special_effect is None,
        !skill.is_preemptive,
{
    let digits = decimal(skill_id);
    let mut name = "技能".to_string();
    name.append(digits.as_str());
    let mut description = "这是技能".to_string();
    description.append(digits.as_str());
    description.append("的描述");
    Skill {
        id: skill_id,
        name,
        description,
        skill_type: SkillType::Physical,
        attribute: Attribute::Huo,
        pp: 10,
        max_pp: 10,
        power: 100,
        special_effect: None,
        is_preemptive: false,
    }
}

/// The line that a chat message of a player is shown as.
pub open spec fn chat_text(player_id: u64, content: Seq<char>) -> Seq<char> {
    "玩家 "@ + decimal_digits(player_id as nat) + " 说: "@ + content
}

pub fn chat_line(player_id: u64, content: &str) -> (line: String)
    ensures
        line@ == chat_text(player_id, content@),
{
    let mut line = "玩家 ".to_string();
    line.append(decimal(player_id).as_str());
    line.append(" 说: ");
    line.append(content);
    line
}

/// Whether a session that accepted `last` last accepts `sequence`: only the
/// number that follows. A lower or equal number is a repeat, a higher one
/// is out of order; both are dropped.
pub open spec fn accepts(last: u64, sequence: u64) -> bool {
    sequence == last + 1
}

/// The number accepted last, after the numbers of `sequences` have come in
/// this order to a session that had accepted `last`.
pub open spec fn last_after(last: u64, sequences: Seq<u64>) -> u64
    decreases sequences.len(),
{
    if sequences.len() == 0 {
        last
    } else {
        let before = last_after(last, sequences.drop_last());
        if accepts(before, sequences.last()) {
            sequences.last()
        } else {
            before
        }
    }
}

/// Whether the number at index `i` of `sequences` is accepted as it comes.
pub open spec fn accepted_at(last: u64, sequences: Seq<u64>, i: int) -> bool {
    accepts(last_after(last, sequences.take(i)), sequences[i])
}

/// A player's actor as plain values.
pub struct PlayerView {
    pub player_id: u64,
    pub last_client_sequence: u64,
    pub server_sequence: u64,
    /// The room the player is in.
    pub room_id: Option<u64>,
}

impl PlayerView {
    /// The actor after a client message with the given number has come.
    pub open spec fn after_sequence(self, sequence: u64) -> PlayerView {
        if accepts(self.last_client_sequence, sequence) {
            PlayerView { last_client_sequence: sequence, ..self }
        } else {
            self
        }
    }

    /// The answer to a request whose token was not valid.
    pub open spec fn auth_failed(self) -> PlayerAction {
        PlayerAction::Publish(
            ServerEvent::SendMessageToPlayer {
                player_id: self.player_id,
                payload: ServerPayload::AuthFailed,
            },
        )
    }

    /// What becomes of an action in a room: it goes to the player's room,
    /// in the player's own name, if the player is in a room and the room is
    /// among `open_rooms`. Else it is dropped.
    pub open spec fn forwarded(self, room_action: RoomAction, open_rooms: Set<u64>)
        -> PlayerAction {
        match self.room_id {
            Some(room_id) if open_rooms.contains(room_id) => PlayerAction::SendToRoom {
                room_id,
                message: RoomActorMessage::RoomAction(room_action.acted_by(self.player_id)),
                must_reach: false,
            },
            _ => PlayerAction::Nothing,
        }
    }

    /// Whether `answer` answers the request `action` of a player with a
    /// valid token.
    pub open spec fn answers(self, action: ClientAction, open_rooms: Set<u64>, answer: PlayerAction)
        -> bool {
        match action {
            ClientAction::Chat { content } => {
                &&& answer matches PlayerAction::Publish(
                    ServerEvent::SendMessageToPlayer {
                        player_id,
                        payload: ServerPayload::Chat { content: line },
                    },
                )
                &&& player_id == self.player_id
                &&& line@ == chat_text(self.player_id, content@)
            },
            ClientAction::Move { .. } => answer is Nothing,
            ClientAction::SpriteTeamRequest => {
                &&& answer matches PlayerAction::Publish(
                    ServerEvent::SendMessageToPlayer {
                        player_id,
                        payload: ServerPayload::SpriteTeam(team),
                    },
                )
                &&& player_id == self.player_id
                &&& is_preset_team(team@)
            },
            ClientAction::RoomAction(room_action) => answer == self.forwarded(
                room_action,
                open_rooms,
            ),
        }
    }

    /// Whether `answer` answers the notification that the player enters
    /// the room `room_id`: the player's team goes to the room, if it is
    /// among `open_rooms`.
    pub open spec fn enters(self, room_id: u64, open_rooms: Set<u64>, answer: PlayerAction)
        -> bool {
        if open_rooms.contains(room_id) {
            &&& answer matches PlayerAction::SendToRoom {
                room_id: to,
                message: RoomActorMessage::SpriteTeam { player_id, sprite_team },
                must_reach,
            }
            &&& to == room_id
            &&& player_id == self.player_id
            &&& is_preset_team(sprite_team@)
            &&& must_reach
        } else {
            answer is Nothing
        }
    }

    /// Whether `answer` answers a client message whose number was accepted,
    /// where `valid` says whether its token was.
    pub open spec fn dispatches(
        self,
        payload: ClientPayload,
        valid: bool,
        open_rooms: Set<u64>,
        answer: PlayerAction,
    ) -> bool {
        match payload {
            ClientPayload::Authenticated { action, .. } => if valid {
                self.answers(action, open_rooms, answer)
            } else {
                answer == self.auth_failed()
            },
            _ => answer is Nothing,
        }
    }
}

/// The actor of one connected player.
#[derive(Debug)]
pub struct PlayerActor {
    session: PlayerSession,
    room_id: Option<u64>,
}

impl View for PlayerActor {
    type V = PlayerView;

    closed spec fn view(&self) -> PlayerView {
        PlayerView {
            player_id: self.session.player_id(),
            last_client_sequence: self.session.last_client_sequence(),
            server_sequence: self.session.server_sequence(),
            room_id: self.room_id,
        }
    }
}

impl PlayerActor {
    /// The actor of a player who has just connected: no message accepted,
    /// no room.
    pub fn new(player_id: u64) -> (actor: Self)
        ensures
            actor@ == (PlayerView {
                player_id,
                last_client_sequence: 0,
                server_sequence: 0,
                room_id: None,
            }),
    {
        PlayerActor { session: PlayerSession::new(player_id, 0, 0), room_id: None }
    }

    pub fn session(&self) -> (session: PlayerSession)
        ensures
            session.player_id() == self@.player_id,
            session.last_client_sequence() == self@.last_client_sequence,
            session.server_sequence() == self@.server_sequence,
    {
        self.session
    }

    /// The room the player is in.
    pub fn room_id(&self) -> (room_id: Option<u64>)
        ensures
            room_id == self@.room_id,
    {
        self.room_id
    }

    /// Runs the actor for one message of its mailbox, where `rooms` holds
    /// the open rooms, and returns what is to be done for it outside. After
    /// `Disconnect` the actor is over.
    pub fn run<R>(&mut self, msg: ActorMessage, rooms: &RoomManager<R>) -> (answer:
        PlayerAction)
        ensures
            match msg {
                ActorMessage::ClientMessage(client_message) => {
                    &&& final(self)@ == old(self)@.after_sequence(client_message.sequence)
                    &&& if accepts(old(self)@.last_client_sequence, client_message.sequence) {
                        exists|valid: bool| #[trigger]
                            final(self)@.dispatches(
                                client_message.payload,
                                valid,
                                rooms@.dom(),
                                answer,
                            )
                    } else {
                        answer is Nothing
                    }
                },
                ActorMessage::SystemNotification(SystemMessage::EnterRoom { room_id, .. }) => {
                    &&& final(self)@ == (PlayerView { room_id: Some(room_id), ..old(self)@ })
                    &&& final(self)@.enters(room_id, rooms@.dom(), answer)
                },
                ActorMessage::SystemNotification(SystemMessage::Escape(_)) => {
                    &&& final(self)@ == old(self)@
                    &&& answer is Nothing
                },
                ActorMessage::Disconnect => {
                    &&& final(self)@ == old(self)@
                    &&& answer == PlayerAction::Disconnect { player_id: old(self)@.player_id }
                },
            },
    {
        match msg {
            ActorMessage::ClientMessage(client_message) => self.handle_client_message(
                client_message,
                rooms,
            ),
            ActorMessage::SystemNotification(system_message) => self.handle_system_notification(
                system_message,
                rooms,
            ),
            ActorMessage::Disconnect => PlayerAction::Disconnect {
                player_id: self.session.player_id(),
            },
        }
    }

    /// The answer to a message of the client. The number is checked before
    /// anything else; of an accepted message, only a request with a token
    /// is looked at, and its token is validated before the request.
    pub fn handle_client_message<R>(
        &mut self,
        client_message: ClientMessage,
        rooms: &RoomManager<R>,
    ) -> (answer: PlayerAction)
        ensures
            final(self)@ == old(self)@.after_sequence(client_message.sequence),
            if accepts(old(self)@.last_client_sequence, client_message.sequence) {
                exists|valid: bool| #[trigger]
                    final(self)@.dispatches(client_message.payload, valid, rooms@.dom(), answer)
            } else {
                answer is Nothing
            },
    {
        let ClientMessage { sequence, payload } = client_message;
        if !self.check_client_sequence(sequence) {
            return PlayerAction::Nothing;
        }
        match payload {
            ClientPayload::Authenticated { token, action } => {
                let verdict = validate_token(token.as_str());
                let answer = self.dispatch(verdict, action, rooms);
                assert(self@.dispatches(payload, verdict is Ok, rooms@.dom(), answer));
                answer
            },
            _ => {
                assert(self@.dispatches(payload, true, rooms@.dom(), PlayerAction::Nothing));
                PlayerAction::Nothing
            },
        }
    }

    /// The answer to a request, given what the validation of its token
    /// came to: the request is answered, or the player is told that the
    /// token is not valid.
    pub fn dispatch<R>(
        &mut self,
        verdict: Result<Claims, TokenError>,
        action: ClientAction,
        rooms: &RoomManager<R>,
    ) -> (answer: PlayerAction)
        ensures
            final(self)@ == old(self)@,
            verdict is Ok ==> old(self)@.answers(action, rooms@.dom(), answer),
            verdict is Err ==> answer == old(self)@.auth_failed(),
    {
        match verdict {
            Ok(_claims) => self.handle_client_action(action, rooms),
            Err(_) => PlayerAction::Publish(
                ServerEvent::SendMessageToPlayer {
                    player_id: self.session.player_id(),
                    payload: ServerPayload::AuthFailed,
                },
            ),
        }
    }

    /// The answer to a request of a player with a valid token.
    pub fn handle_client_action<R>(&mut self, action: ClientAction, rooms: &RoomManager<R>) -> (answer:
        PlayerAction)
        ensures
            final(self)@ == old(self)@,
            old(self)@.answers(action, rooms@.dom(), answer),
    {
        match action {
            ClientAction::Chat { content } => PlayerAction::Publish(
                ServerEvent::SendMessageToPlayer {
                    player_id: self.session.player_id(),
                    payload: ServerPayload::Chat {
                        content: chat_line(self.session.player_id(), content.as_str()),
                    },
                },
            ),
            ClientAction::SpriteTeamRequest => {
                let sprite_team = get_sprite_team(self.session.player_id());
                PlayerAction::Publish(
                    ServerEvent::SendMessageToPlayer {
                        player_id: self.session.player_id(),
                        payload: ServerPayload::SpriteTeam(sprite_team),
                    },
                )
            },
            ClientAction::RoomAction(room_action) => self.handle_room_action(room_action, rooms),
            ClientAction::Move { .. } => PlayerAction::Nothing,
        }
    }

    /// Forwards an action to the player's room, in the player's own name.
    /// Without a room, or where the room is gone, the action is dropped.
    pub fn handle_room_action<R>(&mut self, room_action: RoomAction, rooms: &RoomManager<R>) -> (answer:
        PlayerAction)
        ensures
            final(self)@ == old(self)@,
            answer == old(self)@.forwarded(room_action, rooms@.dom()),
    {
        let room_id = match self.room_id {
            Some(room_id) => room_id,
            None => {
                return PlayerAction::Nothing;
            },
        };
        if rooms.get_room_sender(room_id).is_none() {
            return PlayerAction::Nothing;
        }
        PlayerAction::SendToRoom {
            room_id,
            message: RoomActorMessage::RoomAction(room_action.acted_by(self.session.player_id())),
            must_reach: false,
        }
    }

    /// The answer to a notification of the server. On entering a room the
    /// player remembers it and, if the room is open, sends it its team.
    pub fn handle_system_notification<R>(
        &mut self,
        system_message: SystemMessage,
        rooms: &RoomManager<R>,
    ) -> (answer: PlayerAction)
        ensures
            match system_message {
                SystemMessage::EnterRoom { room_id, .. } => {
                    &&& final(self)@ == (PlayerView { room_id: Some(room_id), ..old(self)@ })
                    &&& final(self)@.enters(room_id, rooms@.dom(), answer)
                },
                SystemMessage::Escape(_) => {
                    &&& final(self)@ == old(self)@
                    &&& answer is Nothing
                },
            },
    {
        match system_message {
            SystemMessage::EnterRoom { room_id, opponent_name: _ } => {
                self.room_id = Some(room_id);
                if rooms.get_room_sender(room_id).is_some() {
                    let sprite_team = get_sprite_team(self.session.player_id());
                    PlayerAction::SendToRoom {
                        room_id,
                        message: RoomActorMessage::SpriteTeam {
                            player_id: self.session.player_id(),
                            sprite_team,
                        },
                        must_reach: true,
                    }
                } else {
                    PlayerAction::Nothing
                }
            },
            SystemMessage::Escape(_escaped_player_id) => PlayerAction::Nothing,
        }
    }

    /// Checks the number of a client message against the last one accepted,
    /// and accepts it if it is the next.
    pub fn check_client_sequence(&mut self, sequence: u64) -> (accepted: bool)
        ensures
            accepted == accepts(old(self)@.last_client_sequence, sequence),
            final(self)@ == old(self)@.after_sequence(sequence),
    {
        if sequence <= self.session.last_client_sequence() {
            false
        } else if sequence > self.session.last_client_sequence() + 1 {
            false
        } else {
            self.session.last_client_sequence_increment();
            true
        }
    }
}

/// `last_after` goes with the actor: one more number changes the number
/// accepted last as `after_sequence` changes the actor.
pub proof fn lemma_last_after_step(actor: PlayerView, sequences: Seq<u64>, sequence: u64)
    ensures
        last_after(actor.last_client_sequence, sequences.push(sequence)) == (PlayerView {
            last_client_sequence: last_after(actor.last_client_sequence, sequences),
            ..actor
        }).after_sequence(sequence).last_client_sequence,
{
    assert(sequences.push(sequence).drop_last() =~= sequences);
}

/// As numbers come in, the number accepted last never falls.
pub proof fn lemma_last_never_falls(last: u64, sequences: Seq<u64>, i: int, j: int)
    requires
        0 <= i <= j <= sequences.len(),
    ensures
        last_after(last, sequences.take(i)) <= last_after(last, sequences.take(j)),
    decreases j,
{
    if i < j {
        lemma_last_never_falls(last, sequences, i, j - 1);
        assert(sequences.take(j).drop_last() =~= sequences.take(j - 1));
    }
}

/// A number is accepted only when it follows the number accepted last, and
/// it is then the number accepted last.
pub proof fn lemma_accepted_follows_last(last: u64, sequences: Seq<u64>, i: int)
    requires
        0 <= i < sequences.len(),
    ensures
        accepted_at(last, sequences, i) <==> sequences[i] == last_after(
            last,
            sequences.take(i),
        ) + 1,
        accepted_at(last, sequences, i) ==> last_after(last, sequences.take(i + 1))
            == sequences[i],
        !accepted_at(last, sequences, i) ==> last_after(last, sequences.take(i + 1))
            == last_after(last, sequences.take(i)),
{
    assert(sequences.take(i + 1).drop_last() =~= sequences.take(i));
}

/// No number is accepted twice: once the number at `i` is accepted, no
/// later number that is equal to it, or lower, is.
pub proof fn lemma_no_replay(last: u64, sequences: Seq<u64>, i: int, j: int)
    requires
        0 <= i < j < sequences.len(),
        accepted_at(last, sequences, i),
        sequences[j] <= sequences[i],
    ensures
        !accepted_at(last, sequences, j),
{
    lemma_accepted_follows_last(last, sequences, i);
    lemma_last_never_falls(last, sequences, i + 1, j);
}

} // verus!
