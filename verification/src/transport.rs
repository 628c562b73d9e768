//! What travels between the peers, and what the transport tells of itself.

use crate::game_events::{EventModel, GameEvent};
use crate::identity::Id;
use crate::lobby::{LobbyMessage, LobbyMessageModel};
use vstd::prelude::*;

verus! {

/// A message that the transport delivers.
#[derive(Debug)]
pub enum TransportMessage {
    /// The transport has been assigned the identity of this participant.
    IdAssigned(Id),
    /// A message of the session.
    Game(Box<GameEvent>),
    /// A message of the lobby before the session.
    Lobby(Box<LobbyMessage>),
    /// A peer has connected.
    PeerConnect(Id),
    /// A peer has disconnected.
    PeerDisconnect(Id),
    /// The transport has disconnected because the user asked for it. No
    /// message follows.
    Disconnected,
    /// The transport has failed and disconnected. No message follows.
    Error(String),
}

/// A transport message as plain values.
pub enum MessageModel {
    IdAssigned(Id),
    Game(EventModel),
    Lobby(LobbyMessageModel),
    PeerConnect(Id),
    PeerDisconnect(Id),
    Disconnected,
    Error(Seq<char>),
}

impl View for TransportMessage {
    type V = MessageModel;

    open spec fn view(&self) -> MessageModel {
        match *self {
            TransportMessage::IdAssigned(id) => MessageModel::IdAssigned(id),
            TransportMessage::Game(event) => MessageModel::Game(event@),
            TransportMessage::Lobby(message) => MessageModel::Lobby(message@),
            TransportMessage::PeerConnect(peer) => MessageModel::PeerConnect(peer),
            TransportMessage::PeerDisconnect(peer) => MessageModel::PeerDisconnect(peer),
            TransportMessage::Disconnected => MessageModel::Disconnected,
            TransportMessage::Error(why) => MessageModel::Error(why@),
        }
    }
}

impl Clone for TransportMessage {
    fn clone(&self) -> (copy: Self)
        ensures
            copy@ == self@,
    {
        match self {
            TransportMessage::IdAssigned(id) => TransportMessage::IdAssigned(*id),
            TransportMessage::Game(event) => TransportMessage::Game(Box::new((**event).clone())),
            TransportMessage::Lobby(message) => TransportMessage::Lobby(
                Box::new((**message).clone()),
            ),
            TransportMessage::PeerConnect(peer) => TransportMessage::PeerConnect(*peer),
            TransportMessage::PeerDisconnect(peer) => TransportMessage::PeerDisconnect(*peer),
            TransportMessage::Disconnected => TransportMessage::Disconnected,
            TransportMessage::Error(why) => TransportMessage::Error(why.clone()),
        }
    }
}

impl From<GameEvent> for TransportMessage {
    fn from(v: GameEvent) -> (message: Self) {
        TransportMessage::Game(Box::new(v))
    }
}

impl vstd::std_specs::convert::FromSpecImpl<GameEvent> for TransportMessage {
    open spec fn obeys_from_spec() -> bool {
        true
    }

    open spec fn from_spec(v: GameEvent) -> Self {
        TransportMessage::Game(Box::new(v))
    }
}

impl From<LobbyMessage> for TransportMessage {
    fn from(v: LobbyMessage) -> (message: Self) {
        TransportMessage::Lobby(Box::new(v))
    }
}

impl vstd::std_specs::convert::FromSpecImpl<LobbyMessage> for TransportMessage {
    open spec fn obeys_from_spec() -> bool {
        true
    }

    open spec fn from_spec(v: LobbyMessage) -> Self {
        TransportMessage::Lobby(Box::new(v))
    }
}

/// A message in the inbox, with the peer it is from or about.
pub type MsgPair = (Option<Id>, TransportMessage);

} // verus!
