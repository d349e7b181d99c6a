//! The core of a game server for turn-based matches between two players.
//!
//! Every part of the server is an actor or a service that answers one input
//! at a time. This library holds what each of them decides: given its state
//! and an input, the next state and what is to be done for it outside. The
//! program around it waits for the inputs, sends the messages and publishes
//! the events.
//!
//! - `actor`: the actor of a connected player, with the check of sequence
//!   numbers that keeps replays out.
//! - `room`: the actor of a room, which leads a match through its phases.
//! - `session`, `room_manager`: the registries of players and of rooms.
//! - `matchmaking`, `coordinator`: the services that pair players and open
//!   rooms for them.
//! - `connection`: the handler of a client connection, before and after
//!   login.
//! - `events`: the events and the bus they are published on.
//! - `message`: the messages of clients and server, and their framing.
//! - `security`: the tokens of logged-in players.
//! - `sprites`, `buff_effect`, `status`, `text`: the data they work on.

pub mod actor;
pub mod buff_effect;
pub mod connection;
pub mod coordinator;
pub mod events;
pub mod matchmaking;
pub mod message;
pub mod room;
pub mod room_manager;
pub mod security;
pub mod session;
pub mod sprites;
pub mod status;
pub mod text;
