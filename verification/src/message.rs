use vstd::prelude::*;

use crate::sprites::Sprite;

verus! {

/// A message from a client. `sequence` guards against replays: a session
/// accepts only the number that follows the last one it accepted.
#[derive(Debug, Clone)]
pub struct ClientMessage {
    pub sequence: u64,
    pub payload: ClientPayload,
}

/// What a client message carries.
#[derive(Debug, Clone)]
pub enum ClientPayload {
    /// Heartbeat.
    Ping,
    Register,
    Login { username: String, password: String },
    /// A request of a logged-in player, with the token it was issued.
    Authenticated { token: String, action: ClientAction },
}

/// A request of a logged-in player.
#[derive(Debug, Clone)]
pub enum ClientAction {
    Chat { content: String },
    /// A move in the world. Each coordinate is a 32-bit float, held here by
    /// its bit pattern.
    Move { x: u32, y: u32, z: u32 },
    /// Asks for the player's own sprite team.
    SpriteTeamRequest,
    /// An action inside the player's current room.
    RoomAction(RoomAction),
}

/// An action inside a room. Every variant but `CatchSprite` names the
/// player who acts.
#[derive(Debug, Clone, Copy)]
pub enum RoomAction {
    SkillAttack { player_id: u64, skill_id: u64 },
    SwitchSprite { player_id: u64, sprite_index: usize },
    UseItem { player_id: u64, item_id: u64 },
    CatchSprite,
    /// The named player flees; the match ends.
    Escape(u64),
}

impl RoomAction {
    /// The same action, acted by `player_id`.
    pub open spec fn spec_acted_by(self, player_id: u64) -> RoomAction {
        match self {
            RoomAction::SkillAttack { skill_id, .. } => RoomAction::SkillAttack {
                player_id,
                skill_id,
            },
            RoomAction::SwitchSprite { sprite_index, .. } => RoomAction::SwitchSprite {
                player_id,
                sprite_index,
            },
            RoomAction::UseItem { item_id, .. } => RoomAction::UseItem { player_id, item_id },
            RoomAction::CatchSprite => RoomAction::CatchSprite,
            RoomAction::Escape(_) => RoomAction::Escape(player_id),
        }
    }

    /// Replaces the acting player by `player_id`, so that no client can act
    /// in another player's name.
    #[verifier::when_used_as_spec(spec_acted_by)]
    pub fn acted_by(self, player_id: u64) -> (action: RoomAction)
        ensures
            action == self.spec_acted_by(player_id),
    {
        match self {
            RoomAction::SkillAttack { skill_id, .. } => RoomAction::SkillAttack {
                player_id,
                skill_id,
            },
            RoomAction::SwitchSprite { sprite_index, .. } => RoomAction::SwitchSprite {
                player_id,
                sprite_index,
            },
            RoomAction::UseItem { item_id, .. } => RoomAction::UseItem { player_id, item_id },
            RoomAction::CatchSprite => RoomAction::CatchSprite,
            RoomAction::Escape(_) => RoomAction::Escape(player_id),
        }
    }
}

/// A message to a client.
#[derive(Debug, Clone)]
pub struct ServerMessage {
    pub sequence: u64,
    pub payload: ServerPayload,
}

/// What a server message carries.
#[derive(Debug, Clone)]
pub enum ServerPayload {
    /// Heartbeat answer.
    Pong,
    Chat { content: String },
    /// Login succeeded; carries the token for later requests.
    LoginSuccess(String),
    LoginFailed,
    /// The token of a request was not valid.
    AuthFailed,
    SpriteTeam(Vec<Sprite>),
}

/// The four bytes of a length prefix: `n` in big-endian order.
pub open spec fn be32(n: nat) -> Seq<u8> {
    seq![
        (n / 0x100_0000 % 0x100) as u8,
        (n / 0x1_0000 % 0x100) as u8,
        (n / 0x100 % 0x100) as u8,
        (n % 0x100) as u8,
    ]
}

/// The number that the first four bytes of `prefix` hold in big-endian
/// order.
pub open spec fn be32_value(prefix: Seq<u8>) -> nat {
    (prefix[0] * 0x100_0000 + prefix[1] * 0x1_0000 + prefix[2] * 0x100 + prefix[3]) as nat
}

/// A frame: the length of the body as a prefix of four bytes, then the
/// body.
pub open spec fn framed(body: Seq<u8>) -> Seq<u8> {
    be32(body.len()) + body
}

/// Why a body was not framed.
#[derive(Debug, Clone, Copy, PartialEq, Eq, Structural)]
pub enum FrameError {
    /// The length of the body does not fit the prefix.
    BodyTooLong,
}

/// What stands at the head of a receive buffer.
#[derive(Debug, Clone, Copy, PartialEq, Eq, Structural)]
pub enum FrameHead {
    /// Not yet a whole frame: at least `missing` more bytes are needed.
    Incomplete { missing: u64 },
    /// A whole frame, whose body has `body_len` bytes.
    Complete { body_len: usize },
}

/// What stands at the head of the bytes `src`.
pub open spec fn frame_head_of(src: Seq<u8>) -> FrameHead {
    if src.len() < 4 {
        FrameHead::Incomplete { missing: (4 - src.len()) as u64 }
    } else if src.len() < 4 + be32_value(src) {
        FrameHead::Incomplete { missing: (4 + be32_value(src) - src.len()) as u64 }
    } else {
        FrameHead::Complete { body_len: be32_value(src) as usize }
    }
}

/// Frames message bodies for the wire and takes frames off a receive
/// buffer. A body is the serialized form of one message.
#[derive(Debug, Clone, Copy)]
pub struct GameMessageCodec {}

impl Default for GameMessageCodec {
    fn default() -> Self {
        GameMessageCodec {}
    }
}

impl GameMessageCodec {
    /// Looks at the head of a receive buffer, and takes nothing off it.
    pub fn frame_head(src: &[u8]) -> (head: FrameHead)
        ensures
            head == frame_head_of(src@),
            head matches FrameHead::Complete { body_len } ==> 4 + body_len <= src@.len()
                <= usize::MAX,
    {
        if src.len() < 4 {
            return FrameHead::Incomplete { missing: (4 - src.len()) as u64 };
        }
        let body_len: u64 = (src[0] as u64) * 0x100_0000 + (src[1] as u64) * 0x1_0000 + (
        src[2] as u64) * 0x100 + (src[3] as u64);
        let have: u64 = src.len() as u64;
        if have < 4 + body_len {
            FrameHead::Incomplete { missing: 4 + body_len - have }
        } else {
            FrameHead::Complete { body_len: body_len as usize }
        }
    }

    /// Appends the frame of `body` to `dst`. A body too long for the
    /// prefix is refused, and `dst` stays as it was.
    pub fn encode(&mut self, body: &[u8], dst: &mut Vec<u8>) -> (outcome: Result<(), FrameError>)
        ensures
            body@.len() <= u32::MAX ==> outcome is Ok && final(dst)@ == old(dst)@ + framed(body@),
            body@.len() > u32::MAX ==> outcome == Err::<(), FrameError>(FrameError::BodyTooLong)
                && final(dst)@ == old(dst)@,
    {
        if body.len() > u32::MAX as usize {
            return Err(FrameError::BodyTooLong);
        }
        let len: u64 = body.len() as u64;
        dst.push((len / 0x100_0000 % 0x100) as u8);
        dst.push((len / 0x1_0000 % 0x100) as u8);
        dst.push((len / 0x100 % 0x100) as u8);
        dst.push((len % 0x100) as u8);
        dst.extend_from_slice(body);
        Ok(())
    }

    /// Takes the frame at the head of `src` off it and returns its body.
    /// Where `src` does not hold a whole frame yet, it stays as it was.
    pub fn decode(&mut self, src: &mut Vec<u8>) -> (body: Option<Vec<u8>>)
        ensures
            match frame_head_of(old(src)@) {
                FrameHead::Complete { body_len } => {
                    &&& body matches Some(bytes)
                    &&& bytes@ == old(src)@.subrange(4, 4 + body_len)
                    &&& final(src)@ == old(src)@.skip(4 + body_len)
                },
                FrameHead::Incomplete { .. } => body is None && final(src)@ == old(src)@,
            },
    {
        match Self::frame_head(src.as_slice()) {
            FrameHead::Complete { body_len } => {
                let rest = src.split_off(4 + body_len);
                let bytes = src.split_off(4);
                *src = rest;
                Some(bytes)
            },
            FrameHead::Incomplete { .. } => None,
        }
    }
}

/// A length that fits the prefix is read back from it as it was written.
pub proof fn lemma_prefix_round_trip(n: nat)
    requires
        n <= u32::MAX,
    ensures
        be32(n).len() == 4,
        be32_value(be32(n)) == n,
{
}

/// A frame is read back as it was written: from a buffer that begins with
/// the frame of `body`, the body is taken, and what followed it is left.
pub proof fn lemma_frame_round_trip(body: Seq<u8>, rest: Seq<u8>)
    requires
        body.len() <= u32::MAX,
        body.len() + 4 <= usize::MAX,
    ensures
        frame_head_of(framed(body) + rest) == (FrameHead::Complete {
            body_len: body.len() as usize,
        }),
        (framed(body) + rest).subrange(4, 4 + body.len() as int) == body,
        (framed(body) + rest).skip(4 + body.len() as int) == rest,
{
    lemma_prefix_round_trip(body.len());
}

} // verus!
