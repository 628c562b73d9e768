//! Rules of a host-less hide-and-seek session between peers, and the framing
//! that carries its messages over a packet-size-capped channel.
//!
//! Every participant holds a full replica of the session state. The replicas
//! agree by consuming the same events and by drawing shared randomness from a
//! cursor that every replica advances identically.
//!
//! Nothing here waits, sends or receives. The session, the lobby before it,
//! the transport and the signaling server each decide here what is to be
//! done, and leave the doing to the loop that calls them:
//!
//! - `game_state` and `game` hold the replica and the steps of its driver,
//!   and `laws` what holds of them;
//! - `packets` splits messages into packets and puts them together again;
//! - `matchbox` keeps the peers of a transport and plans what goes to whom;
//! - `lobby` keeps the players and settings before a session starts;
//! - `signaling` keeps the rooms of the signaling server, and `server` knows
//!   where that server is.

pub mod collections;
pub mod game;
pub mod game_events;
pub mod game_state;
pub mod identity;
pub mod laws;
pub mod lobby;
pub mod location;
pub mod matchbox;
pub mod packets;
pub mod powerups;
pub mod profile;
pub mod random;
pub mod server;
pub mod settings;
pub mod signaling;
pub mod string_map;
pub mod time;
pub mod transport;
