//! The events by which the replicas of a session stay in step.

use crate::game_state::PlayerPing;
use crate::identity::Id;
use crate::location::Location;
use crate::time::Timestamp;
use vstd::prelude::*;

verus! {

/// An event that players send each other to update their state.
#[derive(Debug)]
pub enum GameEvent {
    /// A player has been caught and is now a seeker.
    PlayerCaught(Id),
    /// A player reveals a location to everyone.
    Ping(PlayerPing),
    /// The first player is to reveal its location at once, under the name of
    /// the second where one is given.
    ForcePing(Id, Option<Id>),
    /// The power-up on the map is gone because this player took it.
    PowerupDespawn(Id),
    /// The whole location history of a player, sent once the session is over.
    PostGameSync(Id, Vec<(Timestamp, Location)>),
}

/// An event as plain values.
pub enum EventModel {
    PlayerCaught(Id),
    Ping(PlayerPing),
    ForcePing(Id, Option<Id>),
    PowerupDespawn(Id),
    PostGameSync(Id, Seq<(Timestamp, Location)>),
}

impl View for GameEvent {
    type V = EventModel;

    open spec fn view(&self) -> EventModel {
        match *self {
            GameEvent::PlayerCaught(player) => EventModel::PlayerCaught(player),
            GameEvent::Ping(ping) => EventModel::Ping(ping),
            GameEvent::ForcePing(target, display) => EventModel::ForcePing(target, display),
            GameEvent::PowerupDespawn(player) => EventModel::PowerupDespawn(player),
            GameEvent::PostGameSync(player, history) => EventModel::PostGameSync(
                player,
                history@,
            ),
        }
    }
}

impl Clone for GameEvent {
    fn clone(&self) -> (copy: Self)
        ensures
            copy@ == self@,
    {
        match self {
            GameEvent::PlayerCaught(player) => GameEvent::PlayerCaught(*player),
            GameEvent::Ping(ping) => GameEvent::Ping(*ping),
            GameEvent::ForcePing(target, display) => GameEvent::ForcePing(*target, *display),
            GameEvent::PowerupDespawn(player) => GameEvent::PowerupDespawn(*player),
            GameEvent::PostGameSync(player, history) => GameEvent::PostGameSync(
                *player,
                clone_history(history),
            ),
        }
    }
}

/// A copy of a location history.
pub fn clone_history(history: &Vec<(Timestamp, Location)>) -> (copy: Vec<(Timestamp, Location)>)
    ensures
        copy@ == history@,
{
    let mut copy: Vec<(Timestamp, Location)> = Vec::with_capacity(history.len());
    let mut i: usize = 0;
    while i < history.len()
        invariant
            i <= history@.len(),
            copy@ == history@.subrange(0, i as int),
        decreases history@.len() - i,
    {
        copy.push(history[i]);
        assert(copy@ =~= history@.subrange(0, i + 1));
        i = i + 1;
    }
    assert(copy@ =~= history@);
    copy
}

/// The plain values of a list of events, in order.
pub open spec fn spec_event_views(events: Seq<GameEvent>) -> Seq<EventModel> {
    Seq::new(events.len(), |i: int| events[i]@)
}

} // verus!
