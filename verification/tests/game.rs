use std::collections::HashMap;

use manhunt::game::{Game, GameError, StateUpdateSender, Verdict};
use manhunt::game_events::GameEvent;
use manhunt::game_state::GameState;
use manhunt::identity::Id;
use manhunt::lobby::StartGameInfo;
use manhunt::location::{Location, LocationService};
use manhunt::powerups::PowerUpType;
use manhunt::settings::{GameSettings, PingStartCondition};
use manhunt::time::Timestamp;
use manhunt::transport::{MsgPair, TransportMessage};

struct MockLocation;

impl LocationService for MockLocation {
    fn get_loc(&self) -> Option<Location> {
        Some(Location {
            lat: 0.0f64.to_bits(),
            long: 0.0f64.to_bits(),
            heading: None,
        })
    }
}

struct NoLocation;

impl LocationService for NoLocation {
    fn get_loc(&self) -> Option<Location> {
        None
    }
}

struct DummySender;

impl StateUpdateSender for DummySender {
    fn send_update(&self) {}
}

type TestGame = Game<MockLocation, DummySender>;

/// A mesh of replicas that hand each other what they broadcast.
struct MockMatch {
    ids: Vec<Id>,
    games: Vec<TestGame>,
    inboxes: Vec<Vec<MsgPair>>,
    gone: Vec<bool>,
    /// Whether a broadcast also comes back to its sender.
    loopback: bool,
    settings: GameSettings,
    mock_now: Timestamp,
}

const START: i64 = 1_700_000_000_000;

fn player_id(index: u32) -> Id {
    0xA000_0000_0000_0000_0000_0000_0000_0000u128 + (index as u128) * 7919 + 1
}

impl MockMatch {
    fn new(settings: GameSettings, players: u32, seekers: u32) -> Self {
        Self::with_loopback(settings, players, seekers, false)
    }

    fn with_loopback(settings: GameSettings, players: u32, seekers: u32, loopback: bool) -> Self {
        let ids = (0..players).map(player_id).collect::<Vec<_>>();
        let initial_caught_state = (0..players)
            .map(|index| (ids[index as usize], index < seekers))
            .collect::<HashMap<_, _>>();
        let games = ids
            .iter()
            .map(|id| {
                let start_info = StartGameInfo {
                    initial_caught_state: initial_caught_state.clone(),
                    settings: settings.clone(),
                };
                TestGame::new_at(
                    start_info,
                    *id,
                    MockLocation,
                    DummySender,
                    Timestamp::from_millis(START),
                )
            })
            .collect::<Vec<_>>();
        Self {
            inboxes: ids.iter().map(|_| Vec::new()).collect(),
            gone: ids.iter().map(|_| false).collect(),
            loopback,
            ids,
            games,
            settings,
            mock_now: Timestamp::from_millis(START),
        }
    }

    fn pass_time(&mut self, seconds: i64) {
        self.mock_now = Timestamp::from_millis(self.mock_now.millis + seconds * 1000);
    }

    fn broadcast(&mut self, from: usize, events: Vec<GameEvent>) {
        for event in events {
            for to in 0..self.games.len() {
                if (to != from || self.loopback) && !self.gone[to] {
                    self.inboxes[to].push((Some(self.ids[from]), event.clone().into()));
                }
            }
        }
    }

    /// Delivers everything that is waiting, and what is sent in answer.
    fn deliver(&mut self) {
        loop {
            let mut quiet = true;
            for index in 0..self.games.len() {
                if self.gone[index] || self.inboxes[index].is_empty() {
                    continue;
                }
                quiet = false;
                let batch = std::mem::take(&mut self.inboxes[index]);
                let outcome = self.games[index].on_messages(batch, self.mock_now);
                assert!(matches!(outcome.verdict, Verdict::Continue));
                self.broadcast(index, outcome.broadcasts);
            }
            if quiet {
                break;
            }
        }
    }

    fn tick(&mut self) -> Vec<bool> {
        let mut finished = Vec::new();
        for index in 0..self.games.len() {
            if self.gone[index] {
                finished.push(false);
                continue;
            }
            let outcome = self.games[index].tick(self.mock_now);
            finished.push(outcome.finished);
            self.broadcast(index, outcome.events);
        }
        self.deliver();
        finished
    }

    fn wait_for_seekers(&mut self) {
        self.pass_time(self.settings.hiding_time_seconds as i64 + 1);
        self.tick();
        self.assert_all_states(|state| assert!(state.seekers_released()));
    }

    fn mark_caught(&mut self, index: usize) {
        let event = self.games[index].mark_caught();
        self.broadcast(index, vec![event]);
        self.deliver();
    }

    fn use_powerup(&mut self, index: usize) {
        let events = self.games[index].use_powerup();
        self.broadcast(index, events);
        self.deliver();
    }

    fn quit(&mut self, index: usize) {
        self.gone[index] = true;
        for to in 0..self.games.len() {
            if to != index {
                self.inboxes[to].push((
                    Some(self.ids[index]),
                    TransportMessage::PeerDisconnect(self.ids[index]),
                ));
            }
        }
        self.deliver();
    }

    fn assert_all_states(&self, check: impl Fn(&GameState)) {
        for (index, game) in self.games.iter().enumerate() {
            if !self.gone[index] {
                check(game.state());
            }
        }
    }
}

fn mk_settings() -> GameSettings {
    GameSettings {
        random_seed: 0,
        hiding_time_seconds: 1,
        ping_start: PingStartCondition::Instant,
        ping_minutes_interval: 1,
        powerup_start: PingStartCondition::Instant,
        powerup_chance: 0,
        powerup_minutes_cooldown: 1,
        powerup_locations: vec![Location {
            lat: 0.0f64.to_bits(),
            long: 0.0f64.to_bits(),
            heading: None,
        }],
    }
}

#[test]
fn game_test_minimal_game() {
    run_minimal_game(false);
}

#[test]
fn mod_test_minimal_game() {
    run_minimal_game(true);
}

fn run_minimal_game(loopback: bool) {
    let settings = mk_settings();

    // 2 players, one is a seeker
    let mut mat = MockMatch::with_loopback(settings, 2, 1, loopback);

    mat.wait_for_seekers();

    mat.mark_caught(1);

    mat.tick();

    let caught = mat.ids[1];
    mat.assert_all_states(|s| {
        assert_eq!(
            s.get_caught(caught),
            Some(true),
            "Game {} sees player 1 as not caught",
            s.id()
        );
    });

    // Extra tick for post-game syncing
    mat.tick();

    mat.assert_all_states(|s| assert!(s.game_ended(), "Game {} has not ended", s.id()));
}

#[test]
fn game_test_basic_pinging() {
    run_basic_pinging(false);
}

#[test]
fn mod_test_basic_pinging() {
    run_basic_pinging(true);
}

fn run_basic_pinging(loopback: bool) {
    let mut settings = mk_settings();
    settings.ping_minutes_interval = 0;

    let mut mat = MockMatch::with_loopback(settings, 4, 1, loopback);

    mat.wait_for_seekers();
    // The reveals begin at the tick that releases the seekers, and the first
    // reveal of each hider reaches the others with the delivery.
    mat.tick();

    let ids = mat.ids.clone();
    mat.assert_all_states(|s| {
        for id in 0..4 {
            let ping = s.get_ping(ids[id]);
            if id == 0 {
                assert!(
                    ping.is_none(),
                    "Game 0 is a seeker and shouldn't be pinged (in {})",
                    s.id()
                );
            } else {
                assert!(
                    ping.is_some(),
                    "Game {} is a hider and should be pinged (in {})",
                    id,
                    s.id()
                );
            }
        }
    });

    mat.mark_caught(1);

    mat.tick();

    mat.assert_all_states(|s| {
        for id in 0..4 {
            let ping = s.get_ping(ids[id]);
            if id <= 1 {
                assert!(
                    ping.is_none(),
                    "Game {} is a seeker and shouldn't be pinged (in {})",
                    id,
                    s.id()
                );
            } else {
                assert!(
                    ping.is_some(),
                    "Game {} is a hider and should be pinged (in {})",
                    id,
                    s.id()
                );
            }
        }
    });
}

#[test]
fn game_test_rng_sync() {
    run_rng_sync(false);
}

#[test]
fn mod_test_rng_sync() {
    run_rng_sync(true);
}

fn run_rng_sync(loopback: bool) {
    let mut settings = mk_settings();
    settings.powerup_chance = 100;
    settings.powerup_minutes_cooldown = 1;
    settings.powerup_start = PingStartCondition::Instant;
    settings.powerup_locations = (1..1000)
        .map(|x| Location {
            lat: (x as f64).to_bits(),
            long: 1.0f64.to_bits(),
            heading: None,
        })
        .collect();
    let places = settings.powerup_locations.clone();

    let mut mat = MockMatch::with_loopback(settings, 10, 2, loopback);

    mat.tick();
    mat.wait_for_seekers();
    mat.pass_time(60);
    mat.tick();

    let location = mat.games[0]
        .state()
        .powerup_location()
        .expect("Powerup didn't spawn");
    assert!(places.contains(&location));

    mat.assert_all_states(|s| {
        assert_eq!(
            s.powerup_location(),
            Some(location),
            "Game {} has a different location than 0",
            s.id()
        );
    });
}

#[test]
fn game_test_powerup_ping_seeker_as_you() {
    run_powerup_ping_seeker_as_you(false);
}

#[test]
fn mod_test_powerup_ping_seeker_as_you() {
    run_powerup_ping_seeker_as_you(true);
}

fn run_powerup_ping_seeker_as_you(loopback: bool) {
    let mut settings = mk_settings();
    settings.ping_minutes_interval = 0;
    let mut mat = MockMatch::with_loopback(settings, 2, 1, loopback);

    mat.wait_for_seekers();

    mat.games[1].force_set_powerup(PowerUpType::PingSeeker);

    mat.tick();

    let ids = mat.ids.clone();
    mat.assert_all_states(|s| {
        if let Some(ping) = s.get_ping(ids[1]) {
            assert_eq!(
                ping.real_player,
                ids[0],
                "Ping for 1 is not truly 0 (in {})",
                s.id()
            );
            assert_eq!(ping.display_player, ids[1]);
        } else {
            panic!("No ping for 1 (in {})", s.id());
        }
    });
    assert!(mat.games[1].state().peek_powerup().is_none());
}

#[test]
fn game_test_powerup_ping_random_hider() {
    run_powerup_ping_random_hider(false);
}

#[test]
fn mod_test_powerup_ping_random_hider() {
    run_powerup_ping_random_hider(true);
}

fn run_powerup_ping_random_hider(loopback: bool) {
    let settings = mk_settings();

    let mut mat = MockMatch::with_loopback(settings, 3, 1, loopback);

    mat.wait_for_seekers();

    mat.games[1].force_set_powerup(PowerUpType::ForcePingOther);

    mat.use_powerup(1);
    mat.tick();

    let ids = mat.ids.clone();
    mat.assert_all_states(|s| {
        // Player 0 is a seeker, player 1 used the powerup, so 2 is the only
        // one that could have pinged
        assert!(s.get_ping(ids[2]).is_some());
        assert!(s.get_ping(ids[0]).is_none());
        assert!(s.get_ping(ids[1]).is_none());
    });
}

#[test]
fn game_test_powerup_ping_seekers() {
    run_powerup_ping_seekers(false);
}

#[test]
fn mod_test_powerup_ping_seekers() {
    run_powerup_ping_seekers(true);
}

fn run_powerup_ping_seekers(loopback: bool) {
    let settings = mk_settings();

    let mut mat = MockMatch::with_loopback(settings, 5, 3, loopback);

    mat.games[3].force_set_powerup(PowerUpType::PingAllSeekers);

    mat.use_powerup(3);
    mat.tick();

    let ids = mat.ids.clone();
    mat.assert_all_states(|s| {
        for id in 0..3 {
            assert!(
                s.get_caught(ids[id]).is_some(),
                "Player {} should be pinged due to the powerup (in {})",
                id,
                s.id()
            );
        }
    });
}

#[test]
fn test_player_dropped() {
    let settings = mk_settings();
    let mut mat = MockMatch::new(settings, 4, 1);

    mat.quit(2);
    let id = mat.ids[2];

    mat.tick();

    mat.assert_all_states(|s| {
        if s.id() != id {
            assert!(
                s.get_ping(id).is_none(),
                "Game {} has not removed 2 from pings",
                s.id()
            );
            assert!(
                s.get_caught(id).is_none(),
                "Game {} has not removed 2 from caught state",
                s.id()
            );
        }
    });
}

#[test]
fn seekers_are_released_after_the_hiding_time() {
    let mut mat = MockMatch::new(mk_settings(), 2, 1);
    mat.tick();
    mat.assert_all_states(|s| assert!(!s.seekers_released()));
    mat.pass_time(2);
    mat.tick();
    let now = mat.mock_now;
    mat.assert_all_states(|s| {
        assert!(s.seekers_released());
        assert_eq!(s.seekers_started(), Some(now));
    });
}

#[test]
fn both_replicas_end_within_two_ticks_of_the_last_catch() {
    let mut mat = MockMatch::new(mk_settings(), 2, 1);
    mat.wait_for_seekers();
    mat.mark_caught(1);

    let first = mat.tick();
    mat.assert_all_states(|s| assert!(s.game_ended()));
    // At the first tick neither has heard of the other's history yet.
    assert_eq!(first, vec![false, false]);
    let second = mat.tick();
    assert_eq!(second, vec![true, true]);

    for index in 0..2 {
        let outcome = mat.games[index].on_timer(mat.mock_now);
        assert!(outcome.broadcasts.is_empty());
        let history = outcome.history.expect("no history");
        assert_eq!(history.my_id(), mat.ids[index]);
        assert_eq!(history.locations().len(), 2);
        for id in mat.ids.iter() {
            let entry = history
                .locations()
                .iter()
                .find(|(player, _)| player == id)
                .expect("a participant has no entry");
            assert!(!entry.1.is_empty());
        }
        assert!(!history.events().is_empty());
        assert_eq!(history.game_ended(), mat.mock_now);
    }
}

#[test]
fn convergence_of_five_replicas() {
    let mut mat = MockMatch::new(mk_settings(), 5, 1);
    mat.wait_for_seekers();
    for index in 1..5 {
        mat.mark_caught(index);
    }
    mat.tick();
    let finished = mat.tick();
    assert_eq!(finished, vec![true; 5]);
    for game in mat.games.iter() {
        let history = game.state().as_game_history();
        assert_eq!(history.locations().len(), 5);
    }
}

#[test]
fn survivors_converge_after_a_player_left() {
    let mut mat = MockMatch::new(mk_settings(), 3, 1);
    mat.wait_for_seekers();
    mat.quit(2);
    mat.mark_caught(1);
    mat.tick();
    let finished = mat.tick();
    assert_eq!(finished, vec![true, true, false]);
    let history = mat.games[0].state().as_game_history();
    assert_eq!(history.locations().len(), 2);
}

#[test]
fn the_end_of_a_session_is_frozen() {
    let mut mat = MockMatch::new(mk_settings(), 2, 1);
    mat.wait_for_seekers();
    mat.mark_caught(1);
    mat.tick();
    let ended = mat.games[0].state().game_ended_at();
    assert_eq!(ended, Some(mat.mock_now));
    mat.pass_time(30);
    mat.tick();
    assert_eq!(mat.games[0].state().game_ended_at(), ended);
}

#[test]
fn marking_a_caught_player_again_changes_nothing() {
    let mut mat = MockMatch::new(mk_settings(), 3, 1);
    mat.wait_for_seekers();
    mat.mark_caught(1);
    let caught = mat.ids[1];
    let now = mat.mock_now;

    let log_before = mat.games[0].state().event_history().len();
    let broadcast = mat.games[0].consume_event(GameEvent::PlayerCaught(caught), now);
    assert!(broadcast.is_none());
    assert_eq!(mat.games[0].state().get_caught(caught), Some(true));
    assert_eq!(mat.games[0].state().iter_seekers().len(), 2);
    assert_eq!(mat.games[0].state().event_history().len(), log_before + 1);

    let again = mat.games[1].mark_caught();
    assert!(matches!(again, GameEvent::PlayerCaught(id) if id == caught));
    assert_eq!(mat.games[1].state().get_caught(caught), Some(true));
    assert!(!mat.games[1].state().game_ended());
}

#[test]
fn an_unknown_player_is_not_added_by_a_catch() {
    let mut mat = MockMatch::new(mk_settings(), 2, 1);
    let stranger: Id = 42;
    let broadcast = mat.games[0].consume_event(GameEvent::PlayerCaught(stranger), mat.mock_now);
    assert!(broadcast.is_none());
    assert_eq!(mat.games[0].state().get_caught(stranger), None);
}

#[test]
fn a_forced_reveal_for_someone_else_is_ignored() {
    let mut mat = MockMatch::new(mk_settings(), 3, 1);
    mat.wait_for_seekers();
    let other = mat.ids[2];
    let broadcast = mat.games[1].consume_event(GameEvent::ForcePing(other, None), mat.mock_now);
    assert!(broadcast.is_none());
    assert!(mat.games[1].state().get_ping(other).is_none());
}

#[test]
fn a_forced_reveal_in_disguise_shows_the_other_name() {
    let mut mat = MockMatch::new(mk_settings(), 2, 1);
    mat.wait_for_seekers();
    let seeker = mat.ids[0];
    let hider = mat.ids[1];
    let now = mat.mock_now;
    let broadcast = mat.games[0]
        .consume_event(GameEvent::ForcePing(seeker, Some(hider)), now)
        .expect("no reveal");
    match broadcast {
        GameEvent::Ping(ping) => {
            assert_eq!(ping.display_player, hider);
            assert_eq!(ping.real_player, seeker);
            assert_eq!(ping.timestamp, now);
            assert_eq!(mat.games[0].state().get_ping(hider), Some(ping));
        }
        _ => panic!("not a reveal"),
    }
}

#[test]
fn without_a_location_nothing_is_revealed() {
    let ids = vec![player_id(0), player_id(1)];
    let caught = HashMap::from_iter([(ids[0], true), (ids[1], false)]);
    let mut settings = mk_settings();
    settings.ping_minutes_interval = 0;
    let mut game = Game::new_at(
        StartGameInfo {
            settings,
            initial_caught_state: caught,
        },
        ids[1],
        NoLocation,
        DummySender,
        Timestamp::from_millis(START),
    );
    let first = game.tick(Timestamp::from_millis(START + 2000));
    assert!(first.events.is_empty());
    let second = game.tick(Timestamp::from_millis(START + 4000));
    assert!(second.events.is_empty());
    assert!(game.state().location_history().is_empty());
    assert!(game.state().seekers_released());
    assert!(game.state().pings_started());
    let broadcast = game.consume_event(
        GameEvent::ForcePing(ids[1], None),
        Timestamp::from_millis(START + 5000),
    );
    assert!(broadcast.is_none());
}

#[test]
fn the_disguise_stays_in_the_hand_until_the_next_reveal() {
    let mut settings = mk_settings();
    settings.ping_minutes_interval = 5;
    let mut mat = MockMatch::new(settings, 2, 1);
    mat.wait_for_seekers();
    mat.games[1].force_set_powerup(PowerUpType::PingSeeker);
    let events = mat.games[1].use_powerup();
    assert!(events.is_empty());
    assert_eq!(
        mat.games[1].state().peek_powerup(),
        Some(&PowerUpType::PingSeeker)
    );
    // No reveal is due yet.
    mat.tick();
    assert_eq!(
        mat.games[1].state().peek_powerup(),
        Some(&PowerUpType::PingSeeker)
    );
    mat.pass_time(5 * 60);
    mat.tick();
    assert!(mat.games[1].state().peek_powerup().is_none());
    let ping = mat.games[0].state().get_ping(mat.ids[1]).expect("no reveal");
    assert_eq!(ping.real_player, mat.ids[0]);
}

#[test]
fn tick_with_takes_the_location_and_the_seeker_given() {
    let mut settings = mk_settings();
    settings.ping_minutes_interval = 0;
    let mut mat = MockMatch::new(settings, 3, 2);
    mat.wait_for_seekers();
    mat.games[2].force_set_powerup(PowerUpType::PingSeeker);
    let here = Location {
        lat: 48.5f64.to_bits(),
        long: 9.0f64.to_bits(),
        heading: Some(0.25f64.to_bits()),
    };
    mat.pass_time(1);
    let now = mat.mock_now;
    let outcome = mat.games[2].tick_with(now, Some(here), Some(mat.ids[1]));
    assert!(!outcome.finished);
    assert_eq!(outcome.events.len(), 1);
    assert!(matches!(
        &outcome.events[0],
        GameEvent::ForcePing(target, Some(display))
            if *target == mat.ids[1] && *display == mat.ids[2]
    ));
    assert_eq!(mat.games[2].state().get_loc(), Some(here));
    assert_eq!(mat.games[2].state().last_global_ping(), Some(now));
}

#[test]
fn taking_a_power_up_clears_the_map_for_everyone() {
    let mut settings = mk_settings();
    settings.powerup_chance = 100;
    let mut mat = MockMatch::new(settings, 3, 1);
    mat.tick();
    mat.wait_for_seekers();
    mat.pass_time(60);
    mat.tick();
    mat.assert_all_states(|s| assert!(s.powerup_location().is_some()));

    let event = mat.games[1].get_powerup();
    assert!(matches!(event, GameEvent::PowerupDespawn(id) if id == mat.ids[1]));
    assert!(mat.games[1].state().peek_powerup().is_some());
    mat.broadcast(1, vec![event]);
    mat.deliver();
    assert!(mat.games[0].state().powerup_location().is_none());
    assert!(mat.games[2].state().powerup_location().is_none());
}

#[test]
fn a_chance_of_zero_never_spawns_but_moves_the_cursor() {
    let mut mat = MockMatch::new(mk_settings(), 2, 1);
    let cursor = mat.games[0].state().shared_random_state();
    let step = mat.games[0].state().shared_random_increment();
    assert!((-100..100).contains(&step));
    assert_eq!(step, mat.games[1].state().shared_random_increment());
    mat.tick();
    mat.wait_for_seekers();
    mat.pass_time(60);
    mat.tick();
    mat.assert_all_states(|s| {
        assert!(s.powerup_location().is_none());
        assert_eq!(s.shared_random_state(), cursor.wrapping_add_signed(step));
    });
}

#[test]
fn the_transport_ends_the_loop() {
    let mut mat = MockMatch::new(mk_settings(), 2, 1);
    let now = mat.mock_now;
    let caught = mat.ids[1];
    let quit = mat.games[0].on_messages(
        vec![
            (None, TransportMessage::PeerConnect(7)),
            (None, TransportMessage::IdAssigned(7)),
            (Some(caught), GameEvent::PlayerCaught(caught).into()),
            (None, TransportMessage::Disconnected),
            (Some(caught), GameEvent::PowerupDespawn(caught).into()),
        ],
        now,
    );
    assert!(matches!(quit.verdict, Verdict::Quit));
    assert!(quit.broadcasts.is_empty());
    assert_eq!(mat.games[0].state().get_caught(caught), Some(true));
    // What came after the disconnect was not consumed.
    assert_eq!(mat.games[0].state().event_history().len(), 1);

    let failed = mat.games[0].on_messages(
        vec![(None, TransportMessage::Error("socket closed".to_string()))],
        now,
    );
    match failed.verdict {
        Verdict::Abort(GameError::Transport(why)) => assert_eq!(why, "socket closed"),
        _ => panic!("not an error"),
    }

    let consumed = mat.games[0]
        .consume_message(None, TransportMessage::Disconnected, now)
        .expect("an error");
    assert!(consumed.quit);
    assert!(consumed.broadcast.is_none());
}

#[test]
fn after_the_end_only_final_histories_are_logged() {
    let mut mat = MockMatch::new(mk_settings(), 2, 1);
    mat.wait_for_seekers();
    mat.mark_caught(1);
    mat.tick();
    let now = mat.mock_now;
    let before = mat.games[0].state().event_history().len();
    mat.games[0].consume_event(GameEvent::PowerupDespawn(mat.ids[1]), now);
    assert_eq!(mat.games[0].state().event_history().len(), before);
    mat.games[0].consume_event(GameEvent::PostGameSync(mat.ids[1], vec![]), now);
    assert_eq!(mat.games[0].state().event_history().len(), before + 1);
}

#[test]
fn test_game() {
    let settings = GameSettings {
        random_seed: 0,
        hiding_time_seconds: 1,
        ping_start: PingStartCondition::Players(3),
        ping_minutes_interval: 0,
        powerup_start: PingStartCondition::Players(3),
        powerup_chance: 0,
        powerup_minutes_cooldown: 1,
        powerup_locations: vec![Location {
            lat: 0.0f64.to_bits(),
            long: 0.0f64.to_bits(),
            heading: None,
        }],
    };

    // A test match with 5 players, players 0 and 1 are seekers.
    let mut test_match = MockMatch::with_loopback(settings, 5, 2, true);
    let ids = test_match.ids.clone();

    let correct_caught_state = [true, true, false, false, false];

    // Let's make sure our initial `caught_state` is correct
    test_match.assert_all_states(|s| {
        for (id, caught) in ids.iter().zip(correct_caught_state) {
            assert_eq!(s.get_caught(*id), Some(caught));
        }
    });

    // Wait for seekers to be released, and then assert all player states properly reflect this
    test_match.wait_for_seekers();

    test_match.pass_time(1);
    test_match.tick();

    // After a tick, all players should have at least one location in their history
    test_match.assert_all_states(|s| assert!(!s.location_history().is_empty()));
    // Two seekers are not enough for the reveals to begin
    test_match.assert_all_states(|s| assert!(!s.pings_started()));

    // Now, let's see if we can mark player 3 as caught
    test_match.mark_caught(3);

    // All states should be updated to reflect this
    test_match.assert_all_states(|s| assert_eq!(s.get_caught(ids[3]), Some(true)));

    test_match.pass_time(1);
    test_match.tick();

    // And now, 3 players have been caught, meaning our start condition has been met
    test_match.assert_all_states(|s| assert!(s.pings_started()));

    test_match.pass_time(1);
    test_match.tick();

    let correct_pings = [false, false, true, false, true];

    // Now let's make sure the hiders are being pinged (3 was just caught, triggering pings.
    // Therefore, 3 should not be pinged)
    test_match.assert_all_states(|s| {
        for (id, pinged) in ids.iter().zip(correct_pings) {
            assert_eq!(s.get_ping(*id).is_some(), pinged);
        }
    });
}
