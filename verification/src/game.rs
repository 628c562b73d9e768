//! The driver of a session: what a replica does on each tick of its timer
//! and with each message that arrives, and what it asks to have sent.
//!
//! The driver performs no input or output of its own. Each step hands back
//! the events to broadcast and says whether the loop around it goes on.

use crate::game_events::{spec_event_views, EventModel, GameEvent};
use crate::game_state::{GameHistory, GameModel, GameState, GameUiState};
use crate::identity::Id;
use crate::lobby::StartGameInfo;
use crate::location::{Location, LocationService};
use crate::powerups::{PowerUpTiming, PowerUpType};
use crate::settings::GameSettings;
use crate::time::Timestamp;
use crate::transport::{MessageModel, MsgPair, TransportMessage};
use vstd::prelude::*;

verus! {

/// What a tick changes and asks for, as plain values.
pub struct TickModel {
    /// The state after the tick.
    pub state: GameModel,
    /// The events to broadcast, in order.
    pub events: Seq<EventModel>,
    /// Whether the session is over and every final history has arrived.
    pub finished: bool,
}

/// What consuming one message changes and asks for, as plain values.
pub struct ConsumeModel {
    /// The state after the message.
    pub state: GameModel,
    /// The event to broadcast, where the message gave rise to one.
    pub broadcast: Option<EventModel>,
    /// Whether the loop goes on, and how it ends if not.
    pub verdict: VerdictModel,
}

/// How the loop of the driver goes on after a step, as plain values.
pub enum VerdictModel {
    /// The loop goes on.
    Continue,
    /// The transport has disconnected as asked: the loop ends without a
    /// history.
    Quit,
    /// The transport has failed with this message: the loop ends in an error.
    Abort(Seq<char>),
}

/// What consuming a batch of messages changes and asks for, as plain values.
pub struct BatchModel {
    pub state: GameModel,
    pub broadcasts: Seq<EventModel>,
    pub verdict: VerdictModel,
}

/// One request to reveal itself for each of `targets`, in order.
pub open spec fn spec_force_pings(targets: Seq<Id>) -> Seq<EventModel> {
    Seq::new(targets.len(), |i: int| EventModel::ForcePing(targets[i], None))
}

impl GameModel {
    /// The state after this participant has marked itself caught: it is a
    /// seeker, no reveal is shown under its name, and it holds no power-up.
    pub open spec fn mark_self_caught(self) -> GameModel {
        self.mark_caught(self.id).remove_ping(self.id).set_powerup(None)
    }

    /// Whether an event is added to the log: every event while the session
    /// runs, and after its end the final histories only.
    pub open spec fn records(self, event: EventModel) -> bool {
        !self.game_ended() || event is PostGameSync
    }

    /// The state after an event has been consumed at `now`, and the event to
    /// broadcast in answer, if any.
    pub open spec fn consume_event(self, event: EventModel, now: Timestamp) -> (
        GameModel,
        Option<EventModel>,
    ) {
        let recorded = if self.records(event) {
            self.record_event(event, now)
        } else {
            self
        };
        match event {
            EventModel::Ping(ping) => (recorded.add_ping(ping), None),
            EventModel::ForcePing(target, display) => {
                if target != self.id {
                    (recorded, None)
                } else {
                    let ping = match display {
                        Some(display) => recorded.create_ping(display, now),
                        None => recorded.create_self_ping(now),
                    };
                    match ping {
                        Some(ping) => (recorded.add_ping(ping), Some(EventModel::Ping(ping))),
                        None => (recorded, None),
                    }
                }
            },
            EventModel::PowerupDespawn(_) => (recorded.despawn_powerup(), None),
            EventModel::PlayerCaught(player) => (
                recorded.mark_caught(player).remove_ping(player),
                None,
            ),
            EventModel::PostGameSync(player, history) => (
                recorded.insert_player_location_history(player, history),
                None,
            ),
        }
    }

    /// What consuming one message of the transport does.
    pub open spec fn consume_message(self, message: MessageModel, now: Timestamp) -> ConsumeModel {
        match message {
            MessageModel::Game(event) => ConsumeModel {
                state: self.consume_event(event, now).0,
                broadcast: self.consume_event(event, now).1,
                verdict: VerdictModel::Continue,
            },
            MessageModel::PeerDisconnect(peer) => ConsumeModel {
                state: self.remove_player(peer),
                broadcast: None,
                verdict: VerdictModel::Continue,
            },
            MessageModel::Disconnected => ConsumeModel {
                state: self,
                broadcast: None,
                verdict: VerdictModel::Quit,
            },
            MessageModel::Error(why) => ConsumeModel {
                state: self,
                broadcast: None,
                verdict: VerdictModel::Abort(why),
            },
            _ => ConsumeModel { state: self, broadcast: None, verdict: VerdictModel::Continue },
        }
    }

    /// What consuming a batch of messages does, one after the other, up to
    /// and including the first that ends the loop.
    pub open spec fn consume_batch(self, messages: Seq<MessageModel>, now: Timestamp) -> BatchModel
        decreases messages.len(),
    {
        if messages.len() == 0 {
            BatchModel { state: self, broadcasts: Seq::empty(), verdict: VerdictModel::Continue }
        } else {
            let first = self.consume_message(messages[0], now);
            let sent = match first.broadcast {
                Some(event) => seq![event],
                None => Seq::empty(),
            };
            if first.verdict is Continue {
                let rest = first.state.consume_batch(messages.drop_first(), now);
                BatchModel {
                    state: rest.state,
                    broadcasts: sent + rest.broadcasts,
                    verdict: rest.verdict,
                }
            } else {
                BatchModel { state: first.state, broadcasts: sent, verdict: first.verdict }
            }
        }
    }

    /// The part of a tick that reveals this participant when a reveal is
    /// due. A holder of the disguise power-up spends it and asks the seeker
    /// `seeker` to reveal itself under the holder's name; without a seeker
    /// nothing happens. Anyone else reveals its own latest location, if it
    /// has one. Either way the reveal timer starts anew.
    pub open spec fn ping_step(self, now: Timestamp, seeker: Option<Id>) -> (
        GameModel,
        Seq<EventModel>,
    ) {
        if !self.should_ping(now) {
            (self, Seq::empty())
        } else if self.held_powerup == Some(PowerUpType::PingSeeker) {
            match seeker {
                Some(seeker) => (
                    self.set_powerup(None).start_pings(now),
                    seq![EventModel::ForcePing(seeker, Some(self.id))],
                ),
                None => (self, Seq::empty()),
            }
        } else {
            match self.create_self_ping(now) {
                Some(ping) => (
                    self.add_ping(ping).start_pings(now),
                    seq![EventModel::Ping(ping)],
                ),
                None => (self, Seq::empty()),
            }
        }
    }

    /// The state of a running session after the timed transitions of a tick
    /// that come before the reveal: the location is added to the history,
    /// the seekers are released once the hiding time is over, and the
    /// reveals begin once their condition is met.
    pub open spec fn before_ping(self, now: Timestamp, location: Option<Location>) -> GameModel {
        let located = match location {
            Some(location) => self.push_loc(location, now),
            None => self,
        };
        let released = if !located.seekers_released() && located.should_release_seekers(now) {
            located.release_seekers(now)
        } else {
            located
        };
        if !released.pings_started() && released.should_start_pings(now) {
            released.start_pings(now)
        } else {
            released
        }
    }

    /// The state of a running session after the transitions of a tick that
    /// come after the reveal: the rolls for power-ups begin once their
    /// condition is met, and a roll is made when one is due.
    pub open spec fn after_ping(self, now: Timestamp) -> GameModel {
        let started = if !self.powerups_started() && self.should_start_powerups(now) {
            self.start_powerups(now)
        } else {
            self
        };
        if started.should_spawn_powerup(now) {
            started.try_spawn_powerup(now)
        } else {
            started
        }
    }

    /// What a tick at `now` does, where the device reports `location` and
    /// `seeker` is the seeker picked for a disguised reveal.
    pub open spec fn tick(self, now: Timestamp, location: Option<Location>, seeker: Option<Id>) -> TickModel {
        if self.ends_now() {
            let ended = self.check_end_game(now);
            TickModel {
                state: ended,
                events: seq![EventModel::PostGameSync(self.id, self.location_history)],
                finished: ended.check_post_game_sync(),
            }
        } else if self.game_ended() {
            TickModel { state: self, events: Seq::empty(), finished: self.check_post_game_sync() }
        } else {
            let pinged = self.before_ping(now, location).ping_step(now, seeker);
            TickModel { state: pinged.0.after_ping(now), events: pinged.1, finished: false }
        }
    }

    /// Whether `seeker` can be the pick for a disguised reveal: a seeker of
    /// the session, or nobody where there is none.
    pub open spec fn seeker_pick(self, seeker: Option<Id>) -> bool {
        match seeker {
            Some(seeker) => self.seekers().contains(seeker),
            None => self.held_powerup != Some(PowerUpType::PingSeeker) || self.seekers()
                == Set::<Id>::empty(),
        }
    }

    /// Whether `target` can be the pick for a forced reveal: another hider
    /// where there is one, else a seeker where there is one, else nobody.
    pub open spec fn target_pick(self, target: Option<Id>) -> bool {
        if self.other_hiders() != Set::<Id>::empty() {
            target is Some && self.other_hiders().contains(target->0)
        } else if self.seekers() != Set::<Id>::empty() {
            target is Some && self.seekers().contains(target->0)
        } else {
            target is None
        }
    }

    /// The state after the held power-up has been used. The disguise stays
    /// in the hand until the next reveal applies it; any other is spent.
    pub open spec fn use_powerup(self) -> GameModel {
        if self.held_powerup is Some && self.held_powerup->0.spec_timing()
            == PowerUpTiming::NextPing {
            self
        } else {
            self.set_powerup(None)
        }
    }

    /// Whether `events` is what the use of the held power-up broadcasts,
    /// where `target` is the pick for a forced reveal: one request for each
    /// seeker, in any order, or one request for the target, or nothing.
    pub open spec fn use_powerup_events(self, target: Option<Id>, events: Seq<EventModel>) -> bool {
        match self.held_powerup {
            Some(PowerUpType::PingAllSeekers) => exists|targets: Seq<Id>|
                {
                    &&& targets.no_duplicates()
                    &&& targets.to_set() == self.seekers()
                    &&& events == #[trigger] spec_force_pings(targets)
                },
            Some(PowerUpType::ForcePingOther) => events == match target {
                Some(target) => seq![EventModel::ForcePing(target, None)],
                None => Seq::empty(),
            },
            _ => events == Seq::<EventModel>::empty(),
        }
    }
}

/// Someone to tell that the state has changed and is to be shown anew.
pub trait StateUpdateSender {
    /// Tells of a change.
    fn send_update(&self);
}

/// Why the loop of the driver ended in an error.
#[derive(Debug)]
pub enum GameError {
    /// The transport failed, with this message.
    Transport(String),
}

/// What a tick leaves for the driver's loop to do.
#[derive(Debug)]
pub struct TickOutcome {
    /// The events to broadcast, in order.
    pub events: Vec<GameEvent>,
    /// Whether the session is over and every final history has arrived: the
    /// loop ends with the history.
    pub finished: bool,
}

/// What a consumed message leaves for the driver's loop to do.
#[derive(Debug)]
pub struct Consumed {
    /// The event to broadcast, where the message gave rise to one.
    pub broadcast: Option<GameEvent>,
    /// Whether the transport has disconnected as asked: the loop ends
    /// without a history.
    pub quit: bool,
}

/// How the loop of the driver goes on.
#[derive(Debug)]
pub enum Verdict {
    /// The loop goes on.
    Continue,
    /// The loop ends without a history.
    Quit,
    /// The loop ends in an error.
    Abort(GameError),
}

impl View for Verdict {
    type V = VerdictModel;

    open spec fn view(&self) -> VerdictModel {
        match *self {
            Verdict::Continue => VerdictModel::Continue,
            Verdict::Quit => VerdictModel::Quit,
            Verdict::Abort(GameError::Transport(why)) => VerdictModel::Abort(why@),
        }
    }
}

/// What a batch of messages leaves for the driver's loop to do.
#[derive(Debug)]
pub struct BatchOutcome {
    /// The events to broadcast, in order.
    pub broadcasts: Vec<GameEvent>,
    /// Whether the loop goes on.
    pub verdict: Verdict,
}

/// What a fired timer leaves for the driver's loop to do.
#[derive(Debug)]
pub struct TimerOutcome {
    /// The events to broadcast, in order.
    pub broadcasts: Vec<GameEvent>,
    /// The history of the session, once it is complete: the loop ends.
    pub history: Option<GameHistory>,
}

/// An event that may be there, as plain values.
pub open spec fn spec_option_view(event: Option<GameEvent>) -> Option<EventModel> {
    match event {
        Some(event) => Some(event@),
        None => None,
    }
}

/// Whether a consumed message came out as the model says.
pub open spec fn spec_consumed(res: Result<Consumed, GameError>, model: ConsumeModel) -> bool {
    match res {
        Ok(consumed) => {
            &&& model.verdict !is Abort
            &&& consumed.quit == model.verdict is Quit
            &&& spec_option_view(consumed.broadcast) == model.broadcast
        },
        Err(GameError::Transport(why)) => model.verdict == VerdictModel::Abort(why@),
    }
}

/// An ongoing session of one participant: its replica of the state, the
/// source of its locations, and whom to tell of changes.
pub struct Game<L: LocationService, S: StateUpdateSender> {
    state: GameState,
    location: L,
    state_update_sender: S,
}

impl<L: LocationService, S: StateUpdateSender> View for Game<L, S> {
    type V = GameModel;

    closed spec fn view(&self) -> GameModel {
        self.state@
    }
}

impl<L: LocationService, S: StateUpdateSender> Game<L, S> {
    /// What holds of every driver that `new` made and the methods below
    /// changed.
    pub open spec fn wf(&self) -> bool {
        self@.wf()
    }

    /// The driver of a session that starts at the instant `now`.
    pub fn new_at(
        start_info: StartGameInfo,
        my_id: Id,
        location: L,
        state_update_sender: S,
        now: Timestamp,
    ) -> (game: Self)
        requires
            start_info@.settings.valid(),
        ensures
            game.wf(),
            game@ == GameModel::new(
                start_info@.settings,
                my_id,
                start_info@.initial_caught_state,
                now,
            ),
    {
        let state = GameState::new_at(
            start_info.settings,
            my_id,
            start_info.initial_caught_state,
            now,
        );
        Game { state, location, state_update_sender }
    }

    /// The driver of a session that starts now, by the system clock.
    pub fn new(start_info: StartGameInfo, my_id: Id, location: L, state_update_sender: S) -> (game:
        Self)
        requires
            start_info@.settings.valid(),
        ensures
            game.wf(),
            game@ == GameModel::new(
                start_info@.settings,
                my_id,
                start_info@.initial_caught_state,
                game@.game_started,
            ),
    {
        Game::new_at(start_info, my_id, location, state_update_sender, Timestamp::now())
    }

    /// The replica of the session state.
    pub fn state(&self) -> (state: &GameState)
        ensures
            state@ == self@,
    {
        &self.state
    }

    /// Marks this participant as caught, and hands back the event that
    /// tells the others.
    pub fn mark_caught(&mut self) -> (event: GameEvent)
        requires
            old(self).wf(),
        ensures
            final(self).wf(),
            final(self)@ == old(self)@.mark_self_caught(),
            event@ == EventModel::PlayerCaught(old(self)@.id),
    {
        let id = self.state.id();
        self.state.mark_caught(id);
        self.state.remove_ping(id);
        self.state.use_powerup();
        GameEvent::PlayerCaught(id)
    }

    /// A copy of the settings of the session.
    pub fn clone_settings(&self) -> (settings: GameSettings)
        ensures
            settings@ == self@.settings,
    {
        self.state.clone_settings()
    }

    /// What of the state is shown to the player.
    pub fn get_ui_state(&self) -> (ui: GameUiState)
        ensures
            ui@ == self@.as_ui_state(),
    {
        self.state.as_ui_state()
    }

    /// This participant picks up the power-up on the map: it draws which
    /// one it is and holds it. Hands back the event that tells the others
    /// that the power-up is gone.
    pub fn get_powerup(&mut self) -> (event: GameEvent)
        requires
            old(self).wf(),
        ensures
            final(self).wf(),
            final(self)@.held_powerup is Some,
            final(self)@ == old(self)@.set_powerup(final(self)@.held_powerup),
            event@ == EventModel::PowerupDespawn(old(self)@.id),
    {
        self.state.get_powerup();
        GameEvent::PowerupDespawn(self.state.id())
    }

    /// Puts a given power-up into this participant's hand.
    pub fn force_set_powerup(&mut self, typ: PowerUpType)
        requires
            old(self).wf(),
        ensures
            final(self).wf(),
            final(self)@ == old(self)@.set_powerup(Some(typ)),
    {
        self.state.force_set_powerup(typ);
    }

    /// Uses the held power-up, where `target` is the player picked for a
    /// forced reveal. Hands back the events to broadcast.
    pub fn use_powerup_with(&mut self, target: Option<Id>) -> (events: Vec<GameEvent>)
        requires
            old(self).wf(),
        ensures
            final(self).wf(),
            final(self)@ == old(self)@.use_powerup(),
            old(self)@.use_powerup_events(target, spec_event_views(events@)),
    {
        let mut events: Vec<GameEvent> = Vec::new();
        let held = match self.state.peek_powerup() {
            Some(typ) => *typ,
            None => {
                assert(spec_event_views(events@) =~= Seq::<EventModel>::empty());
                assert(old(self)@.set_powerup(None) == old(self)@);
                return events;
            },
        };
        match held.timing() {
            PowerUpTiming::NextPing => {
                // Stays in the hand: the next reveal applies it.
                assert(spec_event_views(events@) =~= Seq::<EventModel>::empty());
            },
            PowerUpTiming::Instant => {
                self.state.use_powerup();
                match held {
                    PowerUpType::PingAllSeekers => {
                        let seekers = self.state.iter_seekers();
                        let mut i: usize = 0;
                        while i < seekers.len()
                            invariant
                                i <= seekers@.len(),
                                events@.len() == i,
                                forall|j: int|
                                    0 <= j < i ==> (#[trigger] events@[j])@
                                        == EventModel::ForcePing(seekers@[j], None),
                            decreases seekers@.len() - i,
                        {
                            events.push(GameEvent::ForcePing(seekers[i], None));
                            i = i + 1;
                        }
                        assert(spec_event_views(events@) =~= spec_force_pings(seekers@));
                        assert(seekers@.no_duplicates() && seekers@.to_set()
                            == old(self)@.seekers() && spec_event_views(events@)
                            == spec_force_pings(seekers@));
                    },
                    _ => {
                        if let Some(target) = target {
                            events.push(GameEvent::ForcePing(target, None));
                        }
                        assert(spec_event_views(events@) =~= match target {
                            Some(target) => seq![EventModel::ForcePing(target, None)],
                            None => Seq::empty(),
                        });
                    },
                }
            },
        }
        events
    }

    /// Uses the held power-up. A forced reveal goes to another hider picked
    /// at random, or to a seeker picked at random where nobody else hides.
    /// Hands back the events to broadcast.
    pub fn use_powerup(&mut self) -> (events: Vec<GameEvent>)
        requires
            old(self).wf(),
        ensures
            final(self).wf(),
            final(self)@ == old(self)@.use_powerup(),
            exists|target: Option<Id>|
                old(self)@.target_pick(target) && #[trigger] old(self)@.use_powerup_events(
                    target,
                    spec_event_views(events@),
                ),
    {
        let target = match self.state.random_other_hider() {
            Some(hider) => Some(hider),
            None => self.state.random_seeker(),
        };
        let events = self.use_powerup_with(target);
        assert(old(self)@.target_pick(target) && old(self)@.use_powerup_events(
            target,
            spec_event_views(events@),
        ));
        events
    }

    /// Consumes one event at the instant `now`. Hands back the event to
    /// broadcast in answer, if any.
    pub fn consume_event(&mut self, event: GameEvent, now: Timestamp) -> (broadcast: Option<
        GameEvent,
    >)
        requires
            old(self).wf(),
        ensures
            final(self).wf(),
            final(self)@ == old(self)@.consume_event(event@, now).0,
            spec_option_view(broadcast) == old(self)@.consume_event(event@, now).1,
    {
        let is_sync = match &event {
            GameEvent::PostGameSync(_, _) => true,
            _ => false,
        };
        if !self.state.game_ended() || is_sync {
            self.state.record_event(event.clone(), now);
        }
        let mut broadcast: Option<GameEvent> = None;
        match event {
            GameEvent::Ping(player_ping) => self.state.add_ping(player_ping),
            GameEvent::ForcePing(target, display) => {
                if target != self.state.id() {
                    return None;
                }
                let ping = match display {
                    Some(display) => self.state.create_ping_at(display, now),
                    None => self.state.create_self_ping_at(now),
                };
                if let Some(ping) = ping {
                    self.state.add_ping(ping);
                    broadcast = Some(GameEvent::Ping(ping));
                }
            },
            GameEvent::PowerupDespawn(_) => self.state.despawn_powerup(),
            GameEvent::PlayerCaught(player) => {
                self.state.mark_caught(player);
                self.state.remove_ping(player);
            },
            GameEvent::PostGameSync(id, history) => {
                self.state.insert_player_location_history(id, history);
            },
        }
        self.state_update_sender.send_update();
        broadcast
    }

    /// Consumes one message of the transport at the instant `now`: an event
    /// of the session is applied, a peer that has left is removed, and the
    /// end of the transport ends the loop.
    pub fn consume_message(&mut self, _id: Option<Id>, msg: TransportMessage, now: Timestamp) -> (res:
        Result<Consumed, GameError>)
        requires
            old(self).wf(),
        ensures
            final(self).wf(),
            final(self)@ == old(self)@.consume_message(msg@, now).state,
            spec_consumed(res, old(self)@.consume_message(msg@, now)),
    {
        match msg {
            TransportMessage::Game(event) => {
                let broadcast = self.consume_event(*event, now);
                Ok(Consumed { broadcast, quit: false })
            },
            TransportMessage::PeerDisconnect(id) => {
                self.state.remove_player(id);
                Ok(Consumed { broadcast: None, quit: false })
            },
            TransportMessage::Disconnected => Ok(Consumed { broadcast: None, quit: true }),
            TransportMessage::Error(err) => Err(GameError::Transport(err)),
            _ => Ok(Consumed { broadcast: None, quit: false }),
        }
    }

    /// Performs a tick at the instant `now`, where the device reports
    /// `location` and `seeker` is the seeker picked for a disguised reveal.
    pub fn tick_with(&mut self, now: Timestamp, location: Option<Location>, seeker: Option<Id>) -> (outcome:
        TickOutcome)
        requires
            old(self).wf(),
        ensures
            final(self).wf(),
            final(self)@ == old(self)@.tick(now, location, seeker).state,
            spec_event_views(outcome.events@) == old(self)@.tick(now, location, seeker).events,
            outcome.finished == old(self)@.tick(now, location, seeker).finished,
    {
        let mut events: Vec<GameEvent> = Vec::new();
        let mut send_update = false;

        if self.state.check_end_game_at(now) {
            // The session is over: send out our location history.
            let history = crate::game_events::clone_history(self.state.location_history());
            events.push(GameEvent::PostGameSync(self.state.id(), history));
            send_update = true;
        }
        if self.state.game_ended() {
            // No normal ticks once the session is over: only tell whether
            // the final histories are complete.
            if send_update {
                self.state_update_sender.send_update();
            }
            let finished = self.state.check_post_game_sync();
            assert(spec_event_views(events@) =~= old(self)@.tick(now, location, seeker).events);
            return TickOutcome { events, finished };
        }
        if let Some(location) = location {
            self.state.push_loc_at(location, now);
        }
        if !self.state.seekers_released() && self.state.should_release_seekers(now) {
            self.state.release_seekers(now);
            send_update = true;
        }
        if !self.state.pings_started() && self.state.should_start_pings(now) {
            self.state.start_pings(now);
            send_update = true;
        }
        assert(self@ == old(self)@.before_ping(now, location));
        if self.state.should_ping(&now) {
            let disguised = match self.state.peek_powerup() {
                Some(PowerUpType::PingSeeker) => true,
                _ => false,
            };
            if disguised {
                if let Some(seeker) = seeker {
                    self.state.use_powerup();
                    events.push(GameEvent::ForcePing(seeker, Some(self.state.id())));
                    self.state.start_pings(now);
                }
            } else {
                if let Some(ping) = self.state.create_self_ping_at(now) {
                    events.push(GameEvent::Ping(ping));
                    self.state.add_ping(ping);
                    self.state.start_pings(now);
                }
            }
        }
        assert(self@ == old(self)@.before_ping(now, location).ping_step(now, seeker).0);
        assert(spec_event_views(events@) =~= old(self)@.before_ping(now, location).ping_step(
            now,
            seeker,
        ).1);
        if !self.state.powerups_started() && self.state.should_start_powerups(now) {
            self.state.start_powerups(now);
            send_update = true;
        }
        if self.state.should_spawn_powerup(&now) {
            self.state.try_spawn_powerup(now);
            send_update = true;
        }
        if send_update {
            self.state_update_sender.send_update();
        }
        TickOutcome { events, finished: false }
    }

    /// Performs a tick at the instant `now`. The location comes from the
    /// location service; a holder of the disguise power-up picks a seeker at
    /// random.
    pub fn tick(&mut self, now: Timestamp) -> (outcome: TickOutcome)
        requires
            old(self).wf(),
        ensures
            final(self).wf(),
            exists|location: Option<Location>, seeker: Option<Id>|
                old(self)@.seeker_pick(seeker) && #[trigger] spec_ticked(
                    old(self)@.tick(now, location, seeker),
                    final(self)@,
                    outcome,
                ),
    {
        let location = self.location.get_loc();
        let seeker = match self.state.peek_powerup() {
            Some(PowerUpType::PingSeeker) => self.state.random_seeker(),
            _ => None,
        };
        let outcome = self.tick_with(now, location, seeker);
        assert(old(self)@.seeker_pick(seeker) && spec_ticked(
            old(self)@.tick(now, location, seeker),
            self@,
            outcome,
        ));
        outcome
    }
}

/// The messages of a batch as plain values, in order.
pub open spec fn spec_message_views(messages: Seq<MsgPair>) -> Seq<MessageModel> {
    Seq::new(messages.len(), |i: int| messages[i].1@)
}

/// Whether a fired timer came out as the model of its tick says: the
/// history is handed over exactly when the tick finished the session.
pub open spec fn spec_timed(model: TickModel, state: GameModel, outcome: TimerOutcome) -> bool {
    &&& state == model.state
    &&& spec_event_views(outcome.broadcasts@) == model.events
    &&& outcome.history is Some == model.finished
    &&& outcome.history is Some ==> outcome.history->0@ == model.state.as_game_history()
}

impl<L: LocationService, S: StateUpdateSender> Game<L, S> {
    /// The step of the loop for a batch of messages that has arrived:
    /// consumes them in order at the instant `now`, up to and including the
    /// first that ends the loop.
    #[verifier::loop_isolation(false)]
    pub fn on_messages(&mut self, messages: Vec<MsgPair>, now: Timestamp) -> (outcome: BatchOutcome)
        requires
            old(self).wf(),
        ensures
            final(self).wf(),
            final(self)@ == old(self)@.consume_batch(spec_message_views(messages@), now).state,
            spec_event_views(outcome.broadcasts@) == old(self)@.consume_batch(
                spec_message_views(messages@),
                now,
            ).broadcasts,
            outcome.verdict@ == old(self)@.consume_batch(
                spec_message_views(messages@),
                now,
            ).verdict,
    {
        let ghost views = spec_message_views(messages@);
        let ghost total = old(self)@.consume_batch(views, now);
        let ghost all = messages@;
        let mut broadcasts: Vec<GameEvent> = Vec::new();
        assert(views.subrange(0, views.len() as int) =~= views);
        for pair in it: messages
            invariant
                self.wf(),
                it.seq() == all,
                views == spec_message_views(all),
                total.state == self@.consume_batch(
                    views.subrange(it.index(), views.len() as int),
                    now,
                ).state,
                total.broadcasts == spec_event_views(broadcasts@) + self@.consume_batch(
                    views.subrange(it.index(), views.len() as int),
                    now,
                ).broadcasts,
                total.verdict == self@.consume_batch(
                    views.subrange(it.index(), views.len() as int),
                    now,
                ).verdict,
        {
            let ghost done = it.index();
            let ghost rest = views.subrange(done, views.len() as int);
            let ghost before = self@;
            let ghost sent = spec_event_views(broadcasts@);
            let (id, msg) = pair;
            assert(msg@ == rest[0]);
            assert(rest.drop_first() =~= views.subrange(done + 1, views.len() as int));
            match self.consume_message(id, msg, now) {
                Ok(consumed) => {
                    if let Some(event) = consumed.broadcast {
                        broadcasts.push(event);
                    }
                    assert(spec_event_views(broadcasts@) =~= sent + match before.consume_message(
                        rest[0],
                        now,
                    ).broadcast {
                        Some(event) => seq![event],
                        None => Seq::empty(),
                    });
                    if consumed.quit {
                        assert(total.broadcasts =~= spec_event_views(broadcasts@));
                        return BatchOutcome { broadcasts, verdict: Verdict::Quit };
                    }
                    assert(total.broadcasts =~= spec_event_views(broadcasts@)
                        + self@.consume_batch(rest.drop_first(), now).broadcasts);
                },
                Err(why) => {
                    assert(total.broadcasts =~= spec_event_views(broadcasts@));
                    return BatchOutcome { broadcasts, verdict: Verdict::Abort(why) };
                },
            }
        }
        assert(total.broadcasts =~= spec_event_views(broadcasts@));
        BatchOutcome { broadcasts, verdict: Verdict::Continue }
    }

    /// The step of the loop for a fired timer: performs a tick at the
    /// instant `now`, and hands over the history once the session is
    /// complete.
    pub fn on_timer(&mut self, now: Timestamp) -> (outcome: TimerOutcome)
        requires
            old(self).wf(),
        ensures
            final(self).wf(),
            exists|location: Option<Location>, seeker: Option<Id>|
                old(self)@.seeker_pick(seeker) && #[trigger] spec_timed(
                    old(self)@.tick(now, location, seeker),
                    final(self)@,
                    outcome,
                ),
    {
        let ticked = self.tick(now);
        let history = if ticked.finished {
            Some(self.state.as_game_history())
        } else {
            None
        };
        let outcome = TimerOutcome { broadcasts: ticked.events, history };
        proof {
            let (location, seeker) = choose|location: Option<Location>, seeker: Option<Id>|
                old(self)@.seeker_pick(seeker) && #[trigger] spec_ticked(
                    old(self)@.tick(now, location, seeker),
                    self@,
                    ticked,
                );
            assert(old(self)@.seeker_pick(seeker) && spec_timed(
                old(self)@.tick(now, location, seeker),
                self@,
                outcome,
            ));
        }
        outcome
    }
}

/// Whether a tick came out as the model says.
pub open spec fn spec_ticked(model: TickModel, state: GameModel, outcome: TickOutcome) -> bool {
    &&& state == model.state
    &&& spec_event_views(outcome.events@) == model.events
    &&& outcome.finished == model.finished
}

} // verus!
