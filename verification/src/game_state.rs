//! The replica of the session that every participant holds, and its rules.

use crate::collections::{keys_with_flag, map_keys};
use crate::game_events::{clone_history, EventModel, GameEvent};
use crate::identity::Id;
use crate::location::Location;
use crate::powerups::PowerUpType;
use crate::random::{
    choose_random, seed_increment, shared_pick, shared_roll, spec_seed_increment,
    spec_shared_pick, spec_shared_roll,
};
use crate::settings::{GameSettings, PingStartCondition, SettingsModel};
use crate::time::{spec_minutes_between, spec_seconds_between, Timestamp};
use std::collections::HashMap;
use vstd::prelude::*;

verus! {

/// A revealed location of a player on the map.
#[derive(Clone, Copy, Debug, PartialEq, Eq, Structural)]
pub struct PlayerPing {
    /// Where the player was.
    pub loc: Location,
    /// When the reveal was made.
    pub timestamp: Timestamp,
    /// The player under whose name the reveal is shown.
    pub display_player: Id,
    /// The player whose location it really is.
    pub real_player: Id,
}

impl PlayerPing {
    /// A reveal made at the instant `timestamp`.
    pub fn at(loc: Location, display_player: Id, real_player: Id, timestamp: Timestamp) -> (ping:
        PlayerPing)
        ensures
            ping == (PlayerPing { loc, timestamp, display_player, real_player }),
    {
        PlayerPing { loc, timestamp, display_player, real_player }
    }

    /// A reveal made now, by the system clock.
    pub fn new(loc: Location, display_player: Id, real_player: Id) -> (ping: PlayerPing)
        ensures
            ping.loc == loc,
            ping.display_player == display_player,
            ping.real_player == real_player,
    {
        PlayerPing::at(loc, display_player, real_player, Timestamp::now())
    }
}

/// The session state as plain values: what the rules are stated over.
pub struct GameModel {
    /// The participant this replica belongs to.
    pub id: Id,
    /// The power-up this participant holds.
    pub held_powerup: Option<PowerUpType>,
    /// When the session started.
    pub game_started: Timestamp,
    /// When the session ended. The session has ended exactly when this is set.
    pub game_ended: Option<Timestamp>,
    /// The final location history of each participant, as far as received.
    pub player_histories: Map<Id, Option<Seq<(Timestamp, Location)>>>,
    /// When the seekers were released.
    pub seekers_started: Option<Timestamp>,
    /// When this participant last revealed itself, or when reveals began.
    pub last_global_ping: Option<Timestamp>,
    /// When a power-up last spawned, or when the rolls began.
    pub last_powerup_spawn: Option<Timestamp>,
    /// For each participant, whether it is a seeker.
    pub caught_state: Map<Id, bool>,
    /// The latest reveal shown under each name.
    pub pings: Map<Id, PlayerPing>,
    /// The power-up on the map.
    pub available_powerup: Option<Location>,
    /// Every event consumed, with the time of its arrival.
    pub event_history: Seq<(Timestamp, EventModel)>,
    /// The settings of the session.
    pub settings: SettingsModel,
    /// Where this participant has been.
    pub location_history: Seq<(Timestamp, Location)>,
    /// The step by which the shared cursor advances with each draw.
    pub shared_random_increment: i64,
    /// The shared cursor: the seed of the next shared draw.
    pub shared_random_state: u64,
}

/// The history of a session, as plain values.
pub struct HistoryModel {
    pub my_id: Id,
    pub game_started: Timestamp,
    pub game_ended: Timestamp,
    pub events: Seq<(Timestamp, EventModel)>,
    pub locations: Map<Id, Seq<(Timestamp, Location)>>,
}

/// The cursor after one draw: the step is added, wrapping around at the
/// ends of the range of `u64`.
pub open spec fn spec_advance_cursor(state: u64, increment: i64) -> u64 {
    if state + increment > u64::MAX {
        (state + increment - 0x1_0000_0000_0000_0000) as u64
    } else if state + increment < 0 {
        (state + increment + 0x1_0000_0000_0000_0000) as u64
    } else {
        (state + increment) as u64
    }
}

impl GameModel {
    /// What must hold of a session state, and does hold of every state that
    /// the operations below reach: the settings are valid, the maps are
    /// finite, every participant has an entry for its final history, and an
    /// entry of anyone else holds a history.
    pub open spec fn wf(self) -> bool {
        &&& self.settings.valid()
        &&& self.caught_state.dom().finite()
        &&& self.player_histories.dom().finite()
        &&& self.pings.dom().finite()
        &&& self.caught_state.dom().subset_of(self.player_histories.dom())
        &&& forall|player: Id|
            self.player_histories.contains_key(player) && !self.caught_state.contains_key(player)
                ==> (#[trigger] self.player_histories[player]) is Some
    }

    /// The state in which a session starts at the instant `now`.
    pub open spec fn new(
        settings: SettingsModel,
        my_id: Id,
        initial_caught_state: Map<Id, bool>,
        now: Timestamp,
    ) -> GameModel {
        GameModel {
            id: my_id,
            held_powerup: None,
            game_started: now,
            game_ended: None,
            player_histories: Map::new(
                |player: Id| initial_caught_state.contains_key(player),
                |player: Id| None::<Seq<(Timestamp, Location)>>,
            ),
            seekers_started: None,
            last_global_ping: None,
            last_powerup_spawn: None,
            caught_state: initial_caught_state,
            pings: Map::empty(),
            available_powerup: None,
            event_history: Seq::empty(),
            settings,
            location_history: Seq::empty(),
            shared_random_increment: spec_seed_increment(settings.random_seed as u64),
            shared_random_state: settings.random_seed as u64,
        }
    }

    /// The participants that are seekers.
    pub open spec fn seekers(self) -> Set<Id> {
        Set::new(|player: Id| self.caught_state.contains_key(player) && self.caught_state[player])
    }

    /// The participants that are still hiding.
    pub open spec fn hiders(self) -> Set<Id> {
        Set::new(
            |player: Id| self.caught_state.contains_key(player) && !self.caught_state[player],
        )
    }

    /// The hiders other than this participant.
    pub open spec fn other_hiders(self) -> Set<Id> {
        self.hiders().remove(self.id)
    }

    /// Whether every known participant has been caught.
    pub open spec fn all_caught(self) -> bool {
        forall|player: Id| self.caught_state.contains_key(player) ==> self.caught_state[player]
    }

    /// Whether this participant is a seeker. One that the session does not
    /// know is none.
    pub open spec fn is_seeker(self) -> bool {
        self.caught_state.contains_key(self.id) && self.caught_state[self.id]
    }

    /// Whether the session has ended.
    pub open spec fn game_ended(self) -> bool {
        self.game_ended is Some
    }

    /// Whether the seekers have been released.
    pub open spec fn seekers_released(self) -> bool {
        self.seekers_started is Some
    }

    /// Whether the periodic reveals have begun.
    pub open spec fn pings_started(self) -> bool {
        self.last_global_ping is Some
    }

    /// Whether the rolls for power-ups have begun.
    pub open spec fn powerups_started(self) -> bool {
        self.last_powerup_spawn is Some
    }

    /// Whole minutes since the seekers were released, once they were.
    pub open spec fn minutes_since_seekers_released(self, now: Timestamp) -> Option<int> {
        match self.seekers_started {
            Some(released) => Some(spec_minutes_between(now, released)),
            None => None,
        }
    }

    /// Whether a start condition is met at the instant `now`.
    pub open spec fn condition_met(self, condition: PingStartCondition, now: Timestamp) -> bool {
        match condition {
            PingStartCondition::Players(count) => self.seekers().len() >= count,
            PingStartCondition::Minutes(minutes) => self.seekers_started is Some
                && spec_minutes_between(now, self.seekers_started->0) >= minutes,
            PingStartCondition::Instant => true,
        }
    }

    /// Whether the hiding time is over at the instant `now`.
    pub open spec fn should_release_seekers(self, now: Timestamp) -> bool {
        spec_seconds_between(now, self.game_started) >= self.settings.hiding_time_seconds
    }

    /// Whether the condition for the periodic reveals is met.
    pub open spec fn should_start_pings(self, now: Timestamp) -> bool {
        self.condition_met(self.settings.ping_start, now)
    }

    /// Whether this participant is due for a reveal: it is a hider, reveals
    /// have begun, and the interval has passed since the last.
    pub open spec fn should_ping(self, now: Timestamp) -> bool {
        &&& !self.is_seeker()
        &&& self.last_global_ping is Some
        &&& spec_minutes_between(now, self.last_global_ping->0)
            >= self.settings.ping_minutes_interval
    }

    /// Whether the rolls for power-ups are to begin: there is a place to
    /// spawn one, and the condition is met.
    pub open spec fn should_start_powerups(self, now: Timestamp) -> bool {
        self.settings.powerup_locations.len() > 0 && self.condition_met(
            self.settings.powerup_start,
            now,
        )
    }

    /// Whether a roll for a power-up is due: rolls have begun, and the
    /// cooldown has passed since the last spawn.
    pub open spec fn should_spawn_powerup(self, now: Timestamp) -> bool {
        self.last_powerup_spawn is Some && spec_minutes_between(now, self.last_powerup_spawn->0)
            >= self.settings.powerup_minutes_cooldown
    }

    /// The state with the seekers released at `now`.
    pub open spec fn release_seekers(self, now: Timestamp) -> GameModel {
        GameModel { seekers_started: Some(now), ..self }
    }

    /// The state with the reveal timer set to `now`.
    pub open spec fn start_pings(self, now: Timestamp) -> GameModel {
        GameModel { last_global_ping: Some(now), ..self }
    }

    /// The state with the power-up timer set to `now`.
    pub open spec fn start_powerups(self, now: Timestamp) -> GameModel {
        GameModel { last_powerup_spawn: Some(now), ..self }
    }

    /// The state without a power-up on the map.
    pub open spec fn despawn_powerup(self) -> GameModel {
        GameModel { available_powerup: None, ..self }
    }

    /// The state after one shared roll for a power-up at `now`. The cursor
    /// advances whatever the roll gives. Where the roll succeeds, a place is
    /// drawn from the same seed and the power-up timer is set.
    pub open spec fn try_spawn_powerup(self, now: Timestamp) -> GameModel {
        let seed = self.shared_random_state;
        let chance = self.settings.powerup_chance;
        let places = self.settings.powerup_locations;
        let advanced = GameModel {
            shared_random_state: spec_advance_cursor(seed, self.shared_random_increment),
            ..self
        };
        if spec_shared_roll(seed, chance) {
            GameModel {
                available_powerup: if places.len() == 0 {
                    None
                } else {
                    Some(places[spec_shared_pick(seed, chance, places.len() as usize) as int])
                },
                last_powerup_spawn: Some(now),
                ..advanced
            }
        } else {
            advanced
        }
    }

    /// The state with `ping` shown under its display name.
    pub open spec fn add_ping(self, ping: PlayerPing) -> GameModel {
        GameModel { pings: self.pings.insert(ping.display_player, ping), ..self }
    }

    /// The state with no reveal shown under the name of `player`.
    pub open spec fn remove_ping(self, player: Id) -> GameModel {
        GameModel { pings: self.pings.remove(player), ..self }
    }

    /// The state with the final history of `player` recorded.
    pub open spec fn insert_player_location_history(
        self,
        player: Id,
        history: Seq<(Timestamp, Location)>,
    ) -> GameModel {
        GameModel { player_histories: self.player_histories.insert(player, Some(history)), ..self }
    }

    /// Whether the session has ended and the final history of every
    /// participant has arrived.
    pub open spec fn check_post_game_sync(self) -> bool {
        self.game_ended() && forall|player: Id|
            self.player_histories.contains_key(player)
                ==> (#[trigger] self.player_histories[player]) is Some
    }

    /// Whether the session ends at this check: everyone is caught and it has
    /// not ended before.
    pub open spec fn ends_now(self) -> bool {
        self.all_caught() && !self.game_ended()
    }

    /// The state after a check for the end at `now`. Where the session ends,
    /// the end is frozen at `now` and this participant's own history is
    /// recorded as final. A session that has ended stays as it is.
    pub open spec fn check_end_game(self, now: Timestamp) -> GameModel {
        if self.ends_now() {
            GameModel {
                game_ended: Some(now),
                player_histories: self.player_histories.insert(
                    self.id,
                    Some(self.location_history),
                ),
                ..self
            }
        } else {
            self
        }
    }

    /// The latest location of this participant.
    pub open spec fn get_loc(self) -> Option<Location> {
        if self.location_history.len() > 0 {
            Some(self.location_history.last().1)
        } else {
            None
        }
    }

    /// The reveal of this participant's latest location under the name of
    /// `display`, made at `now`.
    pub open spec fn create_ping(self, display: Id, now: Timestamp) -> Option<PlayerPing> {
        match self.get_loc() {
            Some(loc) => Some(
                PlayerPing { loc, timestamp: now, display_player: display, real_player: self.id },
            ),
            None => None,
        }
    }

    /// The reveal of this participant's latest location under its own name.
    pub open spec fn create_self_ping(self, now: Timestamp) -> Option<PlayerPing> {
        self.create_ping(self.id, now)
    }

    /// The state without `player`: gone from every map.
    pub open spec fn remove_player(self, player: Id) -> GameModel {
        GameModel {
            pings: self.pings.remove(player),
            caught_state: self.caught_state.remove(player),
            player_histories: self.player_histories.remove(player),
            ..self
        }
    }

    /// The state in which this participant holds `held`.
    pub open spec fn set_powerup(self, held: Option<PowerUpType>) -> GameModel {
        GameModel { held_powerup: held, ..self }
    }

    /// The state with `loc` added to this participant's history at `now`.
    pub open spec fn push_loc(self, loc: Location, now: Timestamp) -> GameModel {
        GameModel { location_history: self.location_history.push((now, loc)), ..self }
    }

    /// The state with `player` marked caught. A player that the session does
    /// not know is not added.
    pub open spec fn mark_caught(self, player: Id) -> GameModel {
        if self.caught_state.contains_key(player) {
            GameModel { caught_state: self.caught_state.insert(player, true), ..self }
        } else {
            self
        }
    }

    /// Whether `player` has been caught, where the session knows it.
    pub open spec fn get_caught(self, player: Id) -> Option<bool> {
        if self.caught_state.contains_key(player) {
            Some(self.caught_state[player])
        } else {
            None
        }
    }

    /// The state with `event` added to the log at `now`.
    pub open spec fn record_event(self, event: EventModel, now: Timestamp) -> GameModel {
        GameModel { event_history: self.event_history.push((now, event)), ..self }
    }

    /// The history of the session: every participant's final history, where
    /// one that has not arrived counts as empty. The end of a session that
    /// has not ended is given as the epoch.
    pub open spec fn as_game_history(self) -> HistoryModel {
        HistoryModel {
            my_id: self.id,
            game_started: self.game_started,
            game_ended: match self.game_ended {
                Some(ended) => ended,
                None => Timestamp { millis: 0 },
            },
            events: self.event_history,
            locations: Map::new(
                |player: Id| self.player_histories.contains_key(player),
                |player: Id|
                    match self.player_histories[player] {
                        Some(history) => history,
                        None => Seq::empty(),
                    },
            ),
        }
    }
}

/// The final histories by participant, as plain values.
pub open spec fn spec_histories_view(
    histories: Map<Id, Option<Vec<(Timestamp, Location)>>>,
) -> Map<Id, Option<Seq<(Timestamp, Location)>>> {
    histories.map_values(
        |history: Option<Vec<(Timestamp, Location)>>|
            match history {
                Some(history) => Some(history@),
                None => None,
            },
    )
}

/// An event log as plain values.
pub open spec fn spec_log_view(log: Seq<(Timestamp, GameEvent)>) -> Seq<(Timestamp, EventModel)> {
    Seq::new(log.len(), |i: int| (log[i].0, log[i].1@))
}

/// This struct holds one replica of the session and applies its rules.
#[derive(Debug)]
pub struct GameState {
    id: Id,
    held_powerup: Option<PowerUpType>,
    game_started: Timestamp,
    game_ended: Option<Timestamp>,
    player_histories: HashMap<Id, Option<Vec<(Timestamp, Location)>>>,
    seekers_started: Option<Timestamp>,
    last_global_ping: Option<Timestamp>,
    last_powerup_spawn: Option<Timestamp>,
    caught_state: HashMap<Id, bool>,
    pings: HashMap<Id, PlayerPing>,
    available_powerup: Option<Location>,
    event_history: Vec<(Timestamp, GameEvent)>,
    settings: GameSettings,
    location_history: Vec<(Timestamp, Location)>,
    shared_random_increment: i64,
    shared_random_state: u64,
}

impl View for GameState {
    type V = GameModel;

    closed spec fn view(&self) -> GameModel {
        GameModel {
            id: self.id,
            held_powerup: self.held_powerup,
            game_started: self.game_started,
            game_ended: self.game_ended,
            player_histories: spec_histories_view(self.player_histories@),
            seekers_started: self.seekers_started,
            last_global_ping: self.last_global_ping,
            last_powerup_spawn: self.last_powerup_spawn,
            caught_state: self.caught_state@,
            pings: self.pings@,
            available_powerup: self.available_powerup,
            event_history: spec_log_view(self.event_history@),
            settings: self.settings@,
            location_history: self.location_history@,
            shared_random_increment: self.shared_random_increment,
            shared_random_state: self.shared_random_state,
        }
    }
}

/// The history of a finished session, to be stored and replayed.
#[derive(Debug)]
pub struct GameHistory {
    my_id: Id,
    pub game_started: Timestamp,
    game_ended: Timestamp,
    events: Vec<(Timestamp, GameEvent)>,
    locations: Vec<(Id, Vec<(Timestamp, Location)>)>,
}

/// The histories in a list of entries, by participant. Where a participant
/// has several entries the last counts.
pub open spec fn spec_locations_map(entries: Seq<(Id, Vec<(Timestamp, Location)>)>) -> Map<
    Id,
    Seq<(Timestamp, Location)>,
>
    decreases entries.len(),
{
    if entries.len() == 0 {
        Map::empty()
    } else {
        spec_locations_map(entries.drop_last()).insert(entries.last().0, entries.last().1@)
    }
}

impl View for GameHistory {
    type V = HistoryModel;

    closed spec fn view(&self) -> HistoryModel {
        HistoryModel {
            my_id: self.my_id,
            game_started: self.game_started,
            game_ended: self.game_ended,
            events: spec_log_view(self.events@),
            locations: spec_locations_map(self.locations@),
        }
    }
}

impl GameHistory {
    /// A history put together from its parts, as when one is read back
    /// from storage.
    pub fn from_parts(
        my_id: Id,
        game_started: Timestamp,
        game_ended: Timestamp,
        events: Vec<(Timestamp, GameEvent)>,
        locations: Vec<(Id, Vec<(Timestamp, Location)>)>,
    ) -> (history: GameHistory)
        ensures
            history@ == (HistoryModel {
                my_id,
                game_started,
                game_ended,
                events: spec_log_view(events@),
                locations: spec_locations_map(locations@),
            }),
    {
        GameHistory { my_id, game_started, game_ended, events, locations }
    }

    /// The participant whose replica wrote this history.
    pub fn my_id(&self) -> (id: Id)
        ensures
            id == self@.my_id,
    {
        self.my_id
    }

    /// When the session ended.
    pub fn game_ended(&self) -> (ended: Timestamp)
        ensures
            ended == self@.game_ended,
    {
        self.game_ended
    }

    /// The events of the session, in the order of their arrival.
    pub fn events(&self) -> (events: &Vec<(Timestamp, GameEvent)>)
        ensures
            spec_log_view(events@) == self@.events,
    {
        &self.events
    }

    /// The final location history of each participant.
    pub fn locations(&self) -> (locations: &Vec<(Id, Vec<(Timestamp, Location)>)>)
        ensures
            spec_locations_map(locations@) == self@.locations,
    {
        &self.locations
    }
}

/// The part of the session state that is shown to the player.
#[derive(Debug)]
pub struct GameUiState {
    my_id: Id,
    caught_state: HashMap<Id, bool>,
    available_powerup: Option<Location>,
    pings: HashMap<Id, PlayerPing>,
    game_started: Timestamp,
    game_ended: Option<Timestamp>,
    last_global_ping: Option<Timestamp>,
    last_powerup_spawn: Option<Timestamp>,
    held_powerup: Option<PowerUpType>,
    seekers_started: Option<Timestamp>,
}

/// What is shown to the player, as plain values.
pub struct UiModel {
    pub my_id: Id,
    pub caught_state: Map<Id, bool>,
    pub available_powerup: Option<Location>,
    pub pings: Map<Id, PlayerPing>,
    pub game_started: Timestamp,
    pub game_ended: Option<Timestamp>,
    pub last_global_ping: Option<Timestamp>,
    pub last_powerup_spawn: Option<Timestamp>,
    pub held_powerup: Option<PowerUpType>,
    pub seekers_started: Option<Timestamp>,
}

impl View for GameUiState {
    type V = UiModel;

    closed spec fn view(&self) -> UiModel {
        UiModel {
            my_id: self.my_id,
            caught_state: self.caught_state@,
            available_powerup: self.available_powerup,
            pings: self.pings@,
            game_started: self.game_started,
            game_ended: self.game_ended,
            last_global_ping: self.last_global_ping,
            last_powerup_spawn: self.last_powerup_spawn,
            held_powerup: self.held_powerup,
            seekers_started: self.seekers_started,
        }
    }
}

impl GameUiState {
    /// The local player.
    pub fn my_id(&self) -> (id: Id)
        ensures
            id == self@.my_id,
    {
        self.my_id
    }

    /// For each player, whether it is a seeker.
    pub fn caught_state(&self) -> (caught: &HashMap<Id, bool>)
        ensures
            caught@ == self@.caught_state,
    {
        &self.caught_state
    }

    /// The power-up on the map.
    pub fn available_powerup(&self) -> (place: Option<Location>)
        ensures
            place == self@.available_powerup,
    {
        self.available_powerup
    }

    /// The reveals on the map, by the name they are shown under.
    pub fn pings(&self) -> (pings: &HashMap<Id, PlayerPing>)
        ensures
            pings@ == self@.pings,
    {
        &self.pings
    }

    /// When the session started.
    pub fn game_started(&self) -> (started: Timestamp)
        ensures
            started == self@.game_started,
    {
        self.game_started
    }

    /// When the session ended, once it has.
    pub fn game_ended(&self) -> (ended: Option<Timestamp>)
        ensures
            ended == self@.game_ended,
    {
        self.game_ended
    }

    /// When the local player last revealed itself.
    pub fn last_global_ping(&self) -> (last: Option<Timestamp>)
        ensures
            last == self@.last_global_ping,
    {
        self.last_global_ping
    }

    /// When a power-up last spawned.
    pub fn last_powerup_spawn(&self) -> (last: Option<Timestamp>)
        ensures
            last == self@.last_powerup_spawn,
    {
        self.last_powerup_spawn
    }

    /// The power-up the local player holds.
    pub fn held_powerup(&self) -> (held: Option<PowerUpType>)
        ensures
            held == self@.held_powerup,
    {
        self.held_powerup
    }

    /// When the seekers were released, once they were.
    pub fn seekers_started(&self) -> (released: Option<Timestamp>)
        ensures
            released == self@.seekers_started,
    {
        self.seekers_started
    }
}

impl GameModel {
    /// What of the state is shown to the player.
    pub open spec fn as_ui_state(self) -> UiModel {
        UiModel {
            my_id: self.id,
            caught_state: self.caught_state,
            available_powerup: self.available_powerup,
            pings: self.pings,
            game_started: self.game_started,
            game_ended: self.game_ended,
            last_global_ping: self.last_global_ping,
            last_powerup_spawn: self.last_powerup_spawn,
            held_powerup: self.held_powerup,
            seekers_started: self.seekers_started,
        }
    }
}

/// A copy of an event log.
pub fn clone_log(log: &Vec<(Timestamp, GameEvent)>) -> (copy: Vec<(Timestamp, GameEvent)>)
    ensures
        spec_log_view(copy@) == spec_log_view(log@),
{
    let mut copy: Vec<(Timestamp, GameEvent)> = Vec::with_capacity(log.len());
    let mut i: usize = 0;
    while i < log.len()
        invariant
            i <= log@.len(),
            copy@.len() == i,
            forall|j: int| 0 <= j < i ==> (#[trigger] copy@[j]).0 == log@[j].0 && copy@[j].1@
                == log@[j].1@,
        decreases log@.len() - i,
    {
        let entry = &log[i];
        copy.push((entry.0, entry.1.clone()));
        i = i + 1;
    }
    assert(spec_log_view(copy@) =~= spec_log_view(log@));
    copy
}

impl GameState {
    /// What holds of every state that `new` made and the methods below
    /// changed.
    pub open spec fn wf(&self) -> bool {
        self@.wf()
    }

    /// A new session that starts at the instant `now`.
    pub fn new_at(
        settings: GameSettings,
        my_id: Id,
        initial_caught_state: HashMap<Id, bool>,
        now: Timestamp,
    ) -> (state: GameState)
        requires
            settings@.valid(),
        ensures
            state.wf(),
            state@ == GameModel::new(settings@, my_id, initial_caught_state@, now),
    {
        broadcast use vstd::std_specs::hash::group_hash_axioms;

        let keys = map_keys(&initial_caught_state);
        let mut player_histories: HashMap<Id, Option<Vec<(Timestamp, Location)>>> =
            HashMap::with_capacity(keys.len());
        let mut i: usize = 0;
        while i < keys.len()
            invariant
                i <= keys@.len(),
                forall|player: Id|
                    player_histories@.contains_key(player) <==> keys@.subrange(
                        0,
                        i as int,
                    ).contains(player),
                forall|player: Id|
                    player_histories@.contains_key(player) ==> (
                    #[trigger] player_histories@[player]) is None,
            decreases keys@.len() - i,
        {
            let ghost prefix = keys@.subrange(0, i as int);
            let ghost next = keys@.subrange(0, i + 1);
            assert(next =~= prefix.push(keys@[i as int]));
            assert forall|player: Id| next.contains(player) <==> (prefix.contains(player)
                || player == keys@[i as int]) by {
                if next.contains(player) {
                    let t = choose|t: int| 0 <= t < next.len() && next[t] == player;
                    if t < prefix.len() {
                        assert(prefix[t] == player);
                    }
                }
                if prefix.contains(player) {
                    let t = choose|t: int| 0 <= t < prefix.len() && prefix[t] == player;
                    assert(next[t] == player);
                }
                assert(next[i as int] == keys@[i as int]);
            }
            player_histories.insert(keys[i], None);
            i = i + 1;
        }
        let increment = seed_increment(settings.random_seed as u64);
        let shared_random_state = settings.random_seed as u64;
        let state = GameState {
            id: my_id,
            held_powerup: None,
            game_started: now,
            game_ended: None,
            player_histories,
            seekers_started: None,
            last_global_ping: None,
            last_powerup_spawn: None,
            pings: HashMap::with_capacity(keys.len()),
            caught_state: initial_caught_state,
            available_powerup: None,
            event_history: Vec::with_capacity(15),
            settings,
            location_history: Vec::with_capacity(30),
            shared_random_increment: increment,
            shared_random_state,
        };
        proof {
            assert(keys@.subrange(0, i as int) =~= keys@);
            let model = GameModel::new(settings@, my_id, initial_caught_state@, now);
            assert forall|player: Id|
                state@.player_histories.contains_key(player) == initial_caught_state@.contains_key(
                    player,
                ) by {
                assert(keys@.to_set().contains(player) == keys@.contains(player));
            }
            assert(state@.player_histories =~= model.player_histories);
            assert(state@.event_history =~= model.event_history);
            assert(state@.pings =~= model.pings);
            assert(state@.player_histories.dom() =~= initial_caught_state@.dom());
        }
        state
    }

    /// A new session that starts now, by the system clock.
    pub fn new(settings: GameSettings, my_id: Id, initial_caught_state: HashMap<Id, bool>) -> (state:
        GameState)
        requires
            settings@.valid(),
        ensures
            state.wf(),
            state@ == GameModel::new(
                settings@,
                my_id,
                initial_caught_state@,
                state@.game_started,
            ),
    {
        GameState::new_at(settings, my_id, initial_caught_state, Timestamp::now())
    }

    /// The participant this replica belongs to.
    pub fn id(&self) -> (id: Id)
        ensures
            id == self@.id,
    {
        self.id
    }

    /// Every event consumed so far, with the time of its arrival.
    pub fn event_history(&self) -> (log: &Vec<(Timestamp, GameEvent)>)
        ensures
            spec_log_view(log@) == self@.event_history,
    {
        &self.event_history
    }

    /// Where this participant has been.
    pub fn location_history(&self) -> (history: &Vec<(Timestamp, Location)>)
        ensures
            history@ == self@.location_history,
    {
        &self.location_history
    }

    /// Adds an event to the log.
    pub fn record_event(&mut self, event: GameEvent, now: Timestamp)
        requires
            old(self).wf(),
        ensures
            final(self).wf(),
            final(self)@ == old(self)@.record_event(event@, now),
    {
        self.event_history.push((now, event));
        assert(self@.event_history =~= old(self)@.event_history.push((now, event@)));
    }

    /// Rolls for a power-up on the map. Every replica must make this call at
    /// the same point of the session: the roll, and the place where the roll
    /// succeeds, are drawn from the shared cursor, which advances.
    pub fn try_spawn_powerup(&mut self, now: Timestamp)
        requires
            old(self).wf(),
        ensures
            final(self).wf(),
            final(self)@ == old(self)@.try_spawn_powerup(now),
    {
        let seed = self.shared_random_state;
        let chance = self.settings.powerup_chance;
        self.shared_random_state = seed.wrapping_add_signed(self.shared_random_increment);
        let roll = shared_roll(seed, chance);
        if roll {
            let places = self.settings.powerup_locations.len();
            let choice = if places == 0 {
                None
            } else {
                Some(self.settings.powerup_locations[shared_pick(seed, chance, places)])
            };
            self.available_powerup = choice;
            self.last_powerup_spawn = Some(now);
        }
    }

    /// Whole minutes since the seekers were released, once they were.
    pub fn minutes_since_seekers_released(&self, now: Timestamp) -> (minutes: Option<u64>)
        ensures
            minutes is Some == self@.seekers_started is Some,
            minutes is Some ==> Some(minutes->0 as int) == self@.minutes_since_seekers_released(
                now,
            ),
    {
        match self.seekers_started {
            Some(released) => Some(now.minutes_between(released)),
            None => None,
        }
    }

    /// Whether the periodic reveals have begun.
    pub fn pings_started(&self) -> (started: bool)
        ensures
            started == self@.pings_started(),
    {
        self.last_global_ping.is_some()
    }

    /// Whether a start condition is met at the instant `now`.
    fn condition_met(&self, condition: PingStartCondition, now: Timestamp) -> (met: bool)
        requires
            self.wf(),
        ensures
            met == self@.condition_met(condition, now),
    {
        match condition {
            PingStartCondition::Players(count) => {
                let seekers = self.iter_seekers();
                proof {
                    seekers@.unique_seq_to_set();
                }
                seekers.len() >= count as usize
            },
            PingStartCondition::Minutes(minutes) => match self.minutes_since_seekers_released(
                now,
            ) {
                Some(since) => since >= minutes as u64,
                None => false,
            },
            PingStartCondition::Instant => true,
        }
    }

    /// Whether the condition for the periodic reveals is met.
    pub fn should_start_pings(&self, now: Timestamp) -> (start: bool)
        requires
            self.wf(),
        ensures
            start == self@.should_start_pings(now),
    {
        self.condition_met(self.settings.ping_start, now)
    }

    /// Whether enough time has passed for this participant to reveal itself.
    pub fn should_ping(&self, now: &Timestamp) -> (ping: bool)
        ensures
            ping == self@.should_ping(*now),
    {
        !self.is_seeker() && match self.last_global_ping {
            Some(last_ping) => now.minutes_between(last_ping)
                >= self.settings.ping_minutes_interval as u64,
            None => false,
        }
    }

    /// Begins the periodic reveals, or restarts the wait for the next.
    pub fn start_pings(&mut self, now: Timestamp)
        requires
            old(self).wf(),
        ensures
            final(self).wf(),
            final(self)@ == old(self)@.start_pings(now),
    {
        self.last_global_ping = Some(now);
    }

    /// Begins the rolls for power-ups.
    pub fn start_powerups(&mut self, now: Timestamp)
        requires
            old(self).wf(),
        ensures
            final(self).wf(),
            final(self)@ == old(self)@.start_powerups(now),
    {
        self.last_powerup_spawn = Some(now);
    }

    /// Whether the rolls for power-ups are to begin.
    pub fn should_start_powerups(&self, now: Timestamp) -> (start: bool)
        requires
            self.wf(),
        ensures
            start == self@.should_start_powerups(now),
    {
        if self.settings.powerup_locations.len() == 0 {
            false
        } else {
            self.condition_met(self.settings.powerup_start, now)
        }
    }

    /// Whether the rolls for power-ups have begun.
    pub fn powerups_started(&self) -> (started: bool)
        ensures
            started == self@.powerups_started(),
    {
        self.last_powerup_spawn.is_some()
    }

    /// Whether enough time has passed for the next roll for a power-up.
    pub fn should_spawn_powerup(&self, now: &Timestamp) -> (spawn: bool)
        ensures
            spawn == self@.should_spawn_powerup(*now),
    {
        match self.last_powerup_spawn {
            Some(last_spawn) => now.minutes_between(last_spawn)
                >= self.settings.powerup_minutes_cooldown as u64,
            None => false,
        }
    }

    /// Where the power-up on the map is.
    pub fn powerup_location(&self) -> (place: Option<Location>)
        ensures
            place == self@.available_powerup,
    {
        self.available_powerup
    }

    /// Takes the power-up off the map.
    pub fn despawn_powerup(&mut self)
        requires
            old(self).wf(),
        ensures
            final(self).wf(),
            final(self)@ == old(self)@.despawn_powerup(),
    {
        self.available_powerup = None;
    }

    /// Whether the hiding time is over.
    pub fn should_release_seekers(&self, now: Timestamp) -> (release: bool)
        ensures
            release == self@.should_release_seekers(now),
    {
        now.seconds_between(self.game_started) >= self.settings.hiding_time_seconds as u64
    }

    /// Marks the seekers as released.
    pub fn release_seekers(&mut self, now: Timestamp)
        requires
            old(self).wf(),
        ensures
            final(self).wf(),
            final(self)@ == old(self)@.release_seekers(now),
    {
        self.seekers_started = Some(now);
    }

    /// Whether the seekers have been released.
    pub fn seekers_released(&self) -> (released: bool)
        ensures
            released == self@.seekers_released(),
    {
        self.seekers_started.is_some()
    }

    /// Shows a reveal under its display name, in place of an earlier one.
    pub fn add_ping(&mut self, ping: PlayerPing)
        requires
            old(self).wf(),
        ensures
            final(self).wf(),
            final(self)@ == old(self)@.add_ping(ping),
    {
        broadcast use vstd::std_specs::hash::group_hash_axioms;

        self.pings.insert(ping.display_player, ping);
    }

    /// The reveal shown under the name of `player`.
    pub fn get_ping(&self, player: Id) -> (ping: Option<PlayerPing>)
        ensures
            ping == if self@.pings.contains_key(player) {
                Some(self@.pings[player])
            } else {
                None
            },
    {
        broadcast use vstd::std_specs::hash::group_hash_axioms;

        match self.pings.get(&player) {
            Some(ping) => Some(*ping),
            None => None,
        }
    }

    /// Records the final location history of a player.
    pub fn insert_player_location_history(&mut self, id: Id, history: Vec<(Timestamp, Location)>)
        requires
            old(self).wf(),
        ensures
            final(self).wf(),
            final(self)@ == old(self)@.insert_player_location_history(id, history@),
    {
        broadcast use vstd::std_specs::hash::group_hash_axioms;

        self.player_histories.insert(id, Some(history));
        assert(self@.player_histories =~= old(self)@.player_histories.insert(id, Some(history@)));
    }

    /// Whether the session has ended and every final history has arrived.
    pub fn check_post_game_sync(&self) -> (complete: bool)
        ensures
            complete == self@.check_post_game_sync(),
    {
        broadcast use vstd::std_specs::hash::group_hash_axioms;

        if !self.game_ended() {
            return false;
        }
        let keys = map_keys(&self.player_histories);
        let mut i: usize = 0;
        while i < keys.len()
            invariant
                i <= keys@.len(),
                keys@.to_set() == self.player_histories@.dom(),
                forall|j: int| 0 <= j < i ==> self.player_histories@[#[trigger] keys@[j]] is Some,
            decreases keys@.len() - i,
        {
            assert(keys@.to_set().contains(keys@[i as int]));
            let arrived = match self.player_histories.get(&keys[i]) {
                Some(history) => history.is_some(),
                None => false,
            };
            if !arrived {
                assert(self@.player_histories[keys@[i as int]] is None);
                return false;
            }
            i = i + 1;
        }
        assert forall|player: Id| self@.player_histories.contains_key(player) implies (
        #[trigger] self@.player_histories[player]) is Some by {
            assert(keys@.to_set().contains(player));
            let j = choose|j: int| 0 <= j < keys@.len() && keys@[j] == player;
            assert(self.player_histories@[keys@[j]] is Some);
        }
        true
    }

    /// Ends the session at `now` if every player has been caught and it has
    /// not ended before, and then records this participant's history as
    /// final. Tells whether the session ended at this call.
    pub fn check_end_game_at(&mut self, now: Timestamp) -> (ended: bool)
        requires
            old(self).wf(),
        ensures
            final(self).wf(),
            ended == old(self)@.ends_now(),
            final(self)@ == old(self)@.check_end_game(now),
    {
        broadcast use vstd::std_specs::hash::group_hash_axioms;

        if self.game_ended.is_some() {
            return false;
        }
        let hiders = keys_with_flag(&self.caught_state, false);
        if hiders.len() == 0 {
            assert forall|player: Id| self@.caught_state.contains_key(player) implies self@.caught_state[player] by {
                assert(!hiders@.contains(player));
            }
            let own = clone_history(&self.location_history);
            self.game_ended = Some(now);
            self.player_histories.insert(self.id, Some(own));
            assert(self@.player_histories =~= old(self)@.player_histories.insert(
                self.id,
                Some(old(self)@.location_history),
            ));
            true
        } else {
            assert(hiders@.contains(hiders@[0]));
            false
        }
    }

    /// As `check_end_game_at`, at the present instant by the system clock.
    pub fn check_end_game(&mut self) -> (ended: bool)
        requires
            old(self).wf(),
        ensures
            final(self).wf(),
            ended == old(self)@.ends_now(),
            ended ==> final(self)@ == old(self)@.check_end_game(final(self)@.game_ended->0),
            !ended ==> final(self)@ == old(self)@,
    {
        self.check_end_game_at(Timestamp::now())
    }

    /// Whether the session has ended.
    pub fn game_ended(&self) -> (ended: bool)
        ensures
            ended == self@.game_ended(),
    {
        self.game_ended.is_some()
    }

    /// Takes the reveal shown under the name of `player` off the map, and
    /// hands it back.
    pub fn remove_ping(&mut self, player: Id) -> (removed: Option<PlayerPing>)
        requires
            old(self).wf(),
        ensures
            final(self).wf(),
            final(self)@ == old(self)@.remove_ping(player),
            removed == if old(self)@.pings.contains_key(player) {
                Some(old(self)@.pings[player])
            } else {
                None
            },
    {
        broadcast use vstd::std_specs::hash::group_hash_axioms;

        self.pings.remove(&player)
    }

    /// All seekers of the session, each once, in no particular order.
    pub fn iter_seekers(&self) -> (seekers: Vec<Id>)
        ensures
            seekers@.no_duplicates(),
            seekers@.to_set() == self@.seekers(),
    {
        let seekers = keys_with_flag(&self.caught_state, true);
        assert(seekers@.to_set() =~= self@.seekers());
        seekers
    }

    /// Picks a seeker at random.
    pub fn random_seeker(&self) -> (picked: Option<Id>)
        ensures
            picked is Some ==> self@.seekers().contains(picked->0),
            picked is None ==> self@.seekers() == Set::<Id>::empty(),
    {
        let seekers = self.iter_seekers();
        let picked = choose_random(seekers.as_slice());
        proof {
            if picked is None {
                assert(seekers@.to_set() =~= Set::<Id>::empty());
            } else {
                assert(seekers@.to_set().contains(picked->0));
            }
        }
        picked
    }

    /// All hiders of the session, each once, in no particular order.
    pub fn iter_hiders(&self) -> (hiders: Vec<Id>)
        ensures
            hiders@.no_duplicates(),
            hiders@.to_set() == self@.hiders(),
    {
        let hiders = keys_with_flag(&self.caught_state, false);
        assert(hiders@.to_set() =~= self@.hiders());
        hiders
    }

    /// Picks at random a hider that is not this participant.
    pub fn random_other_hider(&self) -> (picked: Option<Id>)
        ensures
            picked is Some ==> self@.other_hiders().contains(picked->0),
            picked is None ==> self@.other_hiders() == Set::<Id>::empty(),
    {
        let hiders = self.iter_hiders();
        let mut others: Vec<Id> = Vec::new();
        let mut i: usize = 0;
        while i < hiders.len()
            invariant
                i <= hiders@.len(),
                forall|j: int|
                    0 <= j < others@.len() ==> hiders@.contains(#[trigger] others@[j])
                        && others@[j] != self.id,
                forall|j: int|
                    0 <= j < i && hiders@[j] != self.id ==> others@.contains(
                        #[trigger] hiders@[j],
                    ),
            decreases hiders@.len() - i,
        {
            if hiders[i] != self.id {
                let ghost before = others@;
                others.push(hiders[i]);
                assert(forall|j: int| 0 <= j < before.len() ==> others@[j] == before[j]);
                assert(others@[before.len() as int] == hiders@[i as int]);
                assert forall|j: int| 0 <= j < i + 1 && hiders@[j] != self.id implies others@.contains(
                    #[trigger] hiders@[j],
                ) by {
                    if j < i {
                        assert(before.contains(hiders@[j]));
                        let t = choose|t: int| 0 <= t < before.len() && before[t] == hiders@[j];
                        assert(others@[t] == hiders@[j]);
                    }
                }
            }
            i = i + 1;
        }
        let picked = choose_random(others.as_slice());
        proof {
            if picked is None {
                assert forall|player: Id| !self@.other_hiders().contains(player) by {
                    if self@.other_hiders().contains(player) {
                        assert(hiders@.to_set().contains(player));
                        let j = choose|j: int| 0 <= j < hiders@.len() && hiders@[j] == player;
                        assert(others@.contains(hiders@[j]));
                    }
                }
                assert(self@.other_hiders() =~= Set::<Id>::empty());
            } else {
                let t = choose|t: int| 0 <= t < others@.len() && others@[t] == picked->0;
                assert(hiders@.contains(others@[t]));
                assert(hiders@.to_set().contains(picked->0));
            }
        }
        picked
    }

    /// The latest location of this participant.
    pub fn get_loc(&self) -> (loc: Option<Location>)
        ensures
            loc == self@.get_loc(),
    {
        let len = self.location_history.len();
        if len > 0 {
            Some(self.location_history[len - 1].1)
        } else {
            None
        }
    }

    /// A reveal of this participant's latest location under the name of
    /// `id`, made at the instant `now`.
    pub fn create_ping_at(&self, id: Id, now: Timestamp) -> (ping: Option<PlayerPing>)
        ensures
            ping == self@.create_ping(id, now),
    {
        match self.get_loc() {
            Some(loc) => Some(PlayerPing::at(loc, id, self.id, now)),
            None => None,
        }
    }

    /// A reveal of this participant's latest location under its own name,
    /// made at the instant `now`.
    pub fn create_self_ping_at(&self, now: Timestamp) -> (ping: Option<PlayerPing>)
        ensures
            ping == self@.create_self_ping(now),
    {
        self.create_ping_at(self.id, now)
    }

    /// A reveal of this participant's latest location under the name of
    /// `id`, made now by the system clock.
    pub fn create_ping(&self, id: Id) -> (ping: Option<PlayerPing>)
        ensures
            ping is Some ==> ping == self@.create_ping(id, ping->0.timestamp),
            ping is None ==> self@.get_loc() is None,
    {
        self.create_ping_at(id, Timestamp::now())
    }

    /// A reveal of this participant's latest location under its own name,
    /// made now by the system clock.
    pub fn create_self_ping(&self) -> (ping: Option<PlayerPing>)
        ensures
            ping is Some ==> ping == self@.create_self_ping(ping->0.timestamp),
            ping is None ==> self@.get_loc() is None,
    {
        self.create_ping(self.id)
    }

    /// Remove a player from the session: from every map.
    pub fn remove_player(&mut self, id: Id)
        requires
            old(self).wf(),
        ensures
            final(self).wf(),
            final(self)@ == old(self)@.remove_player(id),
    {
        broadcast use vstd::std_specs::hash::group_hash_axioms;

        self.pings.remove(&id);
        self.caught_state.remove(&id);
        self.player_histories.remove(&id);
        assert(self@.player_histories =~= old(self)@.player_histories.remove(id));
    }

    /// The player has picked up a power-up: draws which one, with the
    /// player's own randomness, and holds it.
    pub fn get_powerup(&mut self)
        requires
            old(self).wf(),
        ensures
            final(self).wf(),
            final(self)@.held_powerup is Some,
            final(self)@ == old(self)@.set_powerup(final(self)@.held_powerup),
    {
        let types = PowerUpType::all_types();
        let choice = choose_random(types.as_slice());
        self.held_powerup = choice;
    }

    /// Puts a given power-up into the player's hand.
    pub fn force_set_powerup(&mut self, typ: PowerUpType)
        requires
            old(self).wf(),
        ensures
            final(self).wf(),
            final(self)@ == old(self)@.set_powerup(Some(typ)),
    {
        self.held_powerup = Some(typ);
    }

    /// The power-up the player holds.
    pub fn peek_powerup(&self) -> (held: Option<&PowerUpType>)
        ensures
            held is Some == self@.held_powerup is Some,
            held is Some ==> *held->0 == self@.held_powerup->0,
    {
        self.held_powerup.as_ref()
    }

    /// Takes the power-up out of the player's hand and hands it back, for
    /// the caller to apply.
    pub fn use_powerup(&mut self) -> (used: Option<PowerUpType>)
        requires
            old(self).wf(),
        ensures
            final(self).wf(),
            used == old(self)@.held_powerup,
            final(self)@ == old(self)@.set_powerup(None),
    {
        self.held_powerup.take()
    }

    /// Adds a location of the player to its history, at the instant `now`.
    pub fn push_loc_at(&mut self, loc: Location, now: Timestamp)
        requires
            old(self).wf(),
        ensures
            final(self).wf(),
            final(self)@ == old(self)@.push_loc(loc, now),
    {
        self.location_history.push((now, loc));
    }

    /// Adds a location of the player to its history, at the present instant
    /// by the system clock.
    pub fn push_loc(&mut self, loc: Location)
        requires
            old(self).wf(),
        ensures
            final(self).wf(),
            final(self)@ == old(self)@.push_loc(loc, final(self)@.location_history.last().0),
    {
        self.push_loc_at(loc, Timestamp::now());
    }

    /// Mark a player as caught.
    pub fn mark_caught(&mut self, player: Id)
        requires
            old(self).wf(),
        ensures
            final(self).wf(),
            final(self)@ == old(self)@.mark_caught(player),
    {
        broadcast use vstd::std_specs::hash::group_hash_axioms;

        if self.caught_state.contains_key(&player) {
            self.caught_state.insert(player, true);
            assert(self.caught_state@.dom() =~= old(self).caught_state@.dom());
        }
    }

    /// Whether a player has been caught, where the session knows it.
    pub fn get_caught(&self, player: Id) -> (caught: Option<bool>)
        ensures
            caught == self@.get_caught(player),
    {
        broadcast use vstd::std_specs::hash::group_hash_axioms;

        match self.caught_state.get(&player) {
            Some(caught) => Some(*caught),
            None => None,
        }
    }

    /// Whether this participant is a seeker.
    pub fn is_seeker(&self) -> (seeker: bool)
        ensures
            seeker == self@.is_seeker(),
    {
        broadcast use vstd::std_specs::hash::group_hash_axioms;

        match self.caught_state.get(&self.id) {
            Some(caught) => *caught,
            None => false,
        }
    }

    /// The history of the session as it stands.
    pub fn as_game_history(&self) -> (history: GameHistory)
        ensures
            history@ == self@.as_game_history(),
    {
        broadcast use vstd::std_specs::hash::group_hash_axioms;

        let keys = map_keys(&self.player_histories);
        let ghost model = self@.as_game_history().locations;
        let mut locations: Vec<(Id, Vec<(Timestamp, Location)>)> = Vec::with_capacity(keys.len());
        let mut i: usize = 0;
        while i < keys.len()
            invariant
                i <= keys@.len(),
                keys@.to_set() == self.player_histories@.dom(),
                model == self@.as_game_history().locations,
                forall|player: Id|
                    spec_locations_map(locations@).contains_key(player) <==> keys@.subrange(
                        0,
                        i as int,
                    ).contains(player),
                forall|player: Id|
                    spec_locations_map(locations@).contains_key(player) ==> (
                    #[trigger] spec_locations_map(locations@)[player]) == model[player],
            decreases keys@.len() - i,
        {
            let id = keys[i];
            let ghost prefix = keys@.subrange(0, i as int);
            let ghost next = keys@.subrange(0, i + 1);
            let ghost before = locations@;
            assert(keys@.to_set().contains(id));
            assert(next =~= prefix.push(id));
            assert forall|player: Id| next.contains(player) <==> (prefix.contains(player)
                || player == id) by {
                if next.contains(player) {
                    let t = choose|t: int| 0 <= t < next.len() && next[t] == player;
                    if t < prefix.len() {
                        assert(prefix[t] == player);
                    }
                }
                if prefix.contains(player) {
                    let t = choose|t: int| 0 <= t < prefix.len() && prefix[t] == player;
                    assert(next[t] == player);
                }
                assert(next[i as int] == id);
            }
            let history = match self.player_histories.get(&id) {
                Some(Some(history)) => clone_history(history),
                _ => Vec::new(),
            };
            assert(history@ == model[id]);
            locations.push((id, history));
            assert(locations@.drop_last() =~= before);
            assert(spec_locations_map(locations@) == spec_locations_map(before).insert(
                id,
                history@,
            ));
            assert forall|player: Id|
                spec_locations_map(locations@).contains_key(player) <==> next.contains(
                    player,
                ) by {
                let was = spec_locations_map(before).contains_key(player);
                let in_prefix = prefix.contains(player);
            }
            assert forall|player: Id|
                spec_locations_map(locations@).contains_key(player) implies (
            #[trigger] spec_locations_map(locations@)[player]) == model[player] by {
                if player != id {
                    assert(spec_locations_map(before).contains_key(player));
                    assert(spec_locations_map(before)[player] == model[player]);
                }
            }
            i = i + 1;
        }
        let history = GameHistory {
            my_id: self.id,
            events: clone_log(&self.event_history),
            locations,
            game_started: self.game_started,
            game_ended: match self.game_ended {
                Some(ended) => ended,
                None => Timestamp::from_millis(0),
            },
        };
        proof {
            assert(keys@.subrange(0, i as int) =~= keys@);
            assert forall|player: Id| history@.locations.contains_key(player)
                == model.contains_key(player) by {
                assert(keys@.to_set().contains(player) == keys@.contains(player));
            }
            assert(history@.locations =~= model);
        }
        history
    }

    /// What of the state is shown to the player.
    pub fn as_ui_state(&self) -> (ui: GameUiState)
        ensures
            ui@ == self@.as_ui_state(),
    {
        GameUiState {
            my_id: self.id,
            caught_state: self.caught_state.clone(),
            available_powerup: self.available_powerup,
            pings: self.pings.clone(),
            game_started: self.game_started,
            game_ended: self.game_ended,
            last_global_ping: self.last_global_ping,
            last_powerup_spawn: self.last_powerup_spawn,
            held_powerup: self.held_powerup,
            seekers_started: self.seekers_started,
        }
    }

    /// The shared cursor: the seed of the next shared draw.
    pub fn shared_random_state(&self) -> (cursor: u64)
        ensures
            cursor == self@.shared_random_state,
    {
        self.shared_random_state
    }

    /// The step by which the shared cursor advances with each draw.
    pub fn shared_random_increment(&self) -> (increment: i64)
        ensures
            increment == self@.shared_random_increment,
    {
        self.shared_random_increment
    }

    /// When the session started.
    pub fn game_started(&self) -> (started: Timestamp)
        ensures
            started == self@.game_started,
    {
        self.game_started
    }

    /// When the session ended, once it has.
    pub fn game_ended_at(&self) -> (ended: Option<Timestamp>)
        ensures
            ended == self@.game_ended,
    {
        self.game_ended
    }

    /// When the seekers were released, once they were.
    pub fn seekers_started(&self) -> (released: Option<Timestamp>)
        ensures
            released == self@.seekers_started,
    {
        self.seekers_started
    }

    /// When this participant last revealed itself, or when reveals began.
    pub fn last_global_ping(&self) -> (last: Option<Timestamp>)
        ensures
            last == self@.last_global_ping,
    {
        self.last_global_ping
    }

    /// When a power-up last spawned, or when the rolls began.
    pub fn last_powerup_spawn(&self) -> (last: Option<Timestamp>)
        ensures
            last == self@.last_powerup_spawn,
    {
        self.last_powerup_spawn
    }

    /// A copy of the settings of the session.
    pub fn clone_settings(&self) -> (settings: GameSettings)
        ensures
            settings@ == self@.settings,
    {
        self.settings.clone()
    }
}

} // verus!
