use std::collections::HashMap;

use manhunt::game_events::GameEvent;
use manhunt::identity::Id;
use manhunt::lobby::{Lobby, LobbyEnd, LobbyMessage, StartGameInfo};
use manhunt::profile::PlayerProfile;
use manhunt::settings::{GameSettings, PingStartCondition};
use manhunt::transport::TransportMessage;

fn profile(name: &str) -> PlayerProfile {
    PlayerProfile {
        display_name: name.to_string(),
        pfp_base64: None,
    }
}

fn lobby_of(id: Id, host: bool) -> Lobby {
    Lobby::new_with_id(
        "aaa",
        host,
        profile(&format!("Lobby {}", id)),
        GameSettings::default(),
        id,
    )
}

/// Lets the lobbies hand each other what they have to say until all is said.
fn exchange(lobbies: &mut Vec<Lobby>, mut mail: Vec<(usize, Id, TransportMessage)>) {
    while let Some((to, from, message)) = mail.pop() {
        let step = lobbies[to].handle_message(Some(from), message);
        assert!(step.end.is_none());
        let sender = lobbies[to].self_id();
        for (peer, reply) in step.replies {
            let target = lobbies
                .iter()
                .position(|lobby| lobby.self_id() == peer)
                .expect("unknown peer");
            mail.push((target, sender, reply.into()));
        }
    }
}

fn joined(players: usize) -> Vec<Lobby> {
    let mut lobbies = (0..players)
        .map(|index| lobby_of(index as Id + 1, index == 0))
        .collect::<Vec<_>>();
    let mut mail = Vec::new();
    for newcomer in 0..players {
        for other in 0..players {
            if other != newcomer {
                let id = lobbies[newcomer].self_id();
                mail.push((other, id, TransportMessage::PeerConnect(id)));
            }
        }
    }
    exchange(&mut lobbies, mail);
    lobbies
}

#[test]
fn a_new_lobby_knows_its_own_player() {
    let lobby = lobby_of(7, true);
    assert!(lobby.is_host());
    assert_eq!(lobby.self_id(), 7);
    assert_eq!(lobby.join_code(), "aaa");
    assert_eq!(lobby.clone_teams(), HashMap::from_iter([(7, false)]));
    let profiles = lobby.clone_profiles();
    assert_eq!(profiles.len(), 1);
    assert_eq!(profiles[&7].display_name, "Lobby 7");
    let state = lobby.clone_state();
    assert_eq!(state.self_id(), 7);
    assert!(state.is_host());
    assert_eq!(state.join_code(), "aaa");
    assert_eq!(state.teams().len(), 1);
    assert_eq!(state.profiles().len(), 1);
    assert_eq!(state.settings().hiding_time_seconds, 60);
}

#[test]
fn players_that_join_learn_of_each_other() {
    let lobbies = joined(4);
    for lobby in lobbies.iter() {
        let profiles = lobby.clone_profiles();
        let teams = lobby.clone_teams();
        assert_eq!(profiles.len(), 4);
        assert_eq!(teams.len(), 4);
        for id in 1..=4 {
            assert_eq!(profiles[&id].display_name, format!("Lobby {}", id));
            assert_eq!(teams[&id], false);
        }
    }
}

#[test]
fn a_new_peer_is_greeted() {
    let mut host = lobby_of(1, true);
    let step = host.handle_message(Some(2), TransportMessage::PeerConnect(2));
    assert!(step.end.is_none());
    assert_eq!(step.replies.len(), 3);
    assert!(step.replies.iter().all(|(to, _)| *to == 2));
    assert!(
        matches!(&step.replies[0].1, LobbyMessage::PlayerSync(1, profile) if profile.display_name == "Lobby 1")
    );
    assert!(matches!(
        step.replies[1].1,
        LobbyMessage::PlayerSwitch(1, false)
    ));
    assert!(matches!(step.replies[2].1, LobbyMessage::HostPush(_)));

    let mut guest = lobby_of(3, false);
    guest.switch_teams(true);
    let step = guest.handle_message(Some(2), TransportMessage::PeerConnect(2));
    assert_eq!(step.replies.len(), 2);
    assert!(matches!(
        step.replies[1].1,
        LobbyMessage::PlayerSwitch(3, true)
    ));
}

#[test]
fn a_switch_of_teams_is_told_to_the_others() {
    let mut lobbies = joined(3);
    let message = lobbies[2].switch_teams(true);
    assert!(matches!(message, LobbyMessage::PlayerSwitch(3, true)));
    let mail = vec![
        (0, 3, message.clone().into()),
        (1, 3, message.into()),
    ];
    exchange(&mut lobbies, mail);
    for lobby in lobbies.iter() {
        assert_eq!(lobby.clone_teams()[&3], true);
        assert_eq!(lobby.clone_teams()[&1], false);
    }
}

#[test]
fn only_the_host_changes_the_settings() {
    let mut lobbies = joined(2);
    let mut settings = GameSettings::default();
    settings.hiding_time_seconds = 45;
    settings.ping_start = PingStartCondition::Instant;

    assert!(lobbies[1].update_settings(settings.clone()).is_none());
    assert_eq!(lobbies[1].clone_settings().hiding_time_seconds, 60);

    let message = lobbies[0]
        .update_settings(settings.clone())
        .expect("the host says nothing");
    assert!(
        matches!(&message, LobbyMessage::HostPush(pushed) if pushed.hiding_time_seconds == 45)
    );
    assert_eq!(lobbies[0].clone_settings().hiding_time_seconds, 45);
    exchange(&mut lobbies, vec![(1, 1, message.into())]);
    assert_eq!(lobbies[1].clone_settings().hiding_time_seconds, 45);
    assert_eq!(
        lobbies[1].clone_settings().ping_start,
        PingStartCondition::Instant
    );
}

#[test]
fn the_host_starts_the_session_for_everyone() {
    let mut lobbies = joined(3);
    let switch = lobbies[1].switch_teams(true);
    exchange(
        &mut lobbies,
        vec![(0, 2, switch.clone().into()), (2, 2, switch.into())],
    );
    assert!(lobbies[1].start_game().is_none());
    let message = lobbies[0].start_game().expect("the host says nothing");
    let expected = HashMap::from_iter([(1, false), (2, true), (3, false)]);
    for lobby in lobbies.iter_mut() {
        let step = lobby.handle_message(Some(1), message.clone().into());
        assert!(step.replies.is_empty());
        match step.end {
            Some(LobbyEnd::Start(StartGameInfo {
                settings,
                initial_caught_state,
            })) => {
                assert_eq!(initial_caught_state, expected);
                assert_eq!(settings.hiding_time_seconds, 60);
            }
            _ => panic!("the session did not start"),
        }
    }
}

#[test]
fn a_player_that_left_is_forgotten() {
    let mut lobbies = joined(3);
    let step = lobbies[0].handle_message(Some(3), TransportMessage::PeerDisconnect(3));
    assert!(step.end.is_none() && step.replies.is_empty());
    assert_eq!(lobbies[0].clone_profiles().len(), 2);
    assert!(!lobbies[0].clone_teams().contains_key(&3));
    // Its own departure does not make a lobby forget itself.
    lobbies[0].handle_message(Some(1), TransportMessage::PeerDisconnect(1));
    assert!(lobbies[0].clone_teams().contains_key(&1));
    assert!(lobbies[0].clone_profiles().contains_key(&1));
}

#[test]
fn the_end_of_the_transport_ends_the_lobby() {
    let mut lobby = lobby_of(1, false);
    let step = lobby.handle_message(None, TransportMessage::Disconnected);
    assert!(matches!(step.end, Some(LobbyEnd::Quit)));
    let step = lobby.handle_message(None, TransportMessage::Error("gone".to_string()));
    assert!(matches!(step.end, Some(LobbyEnd::Abort(why)) if why == "gone"));
    let step = lobby.handle_message(Some(2), GameEvent::PlayerCaught(2).into());
    assert!(step.end.is_none() && step.replies.is_empty());
    let step = lobby.handle_message(Some(1), TransportMessage::IdAssigned(1));
    assert!(step.end.is_none() && step.replies.is_empty());
}

#[test]
fn lobby_messages_are_applied() {
    let mut lobby = lobby_of(1, false);
    assert!(lobby
        .handle_lobby(LobbyMessage::PlayerSync(2, profile("Two")))
        .is_none());
    assert!(lobby
        .handle_lobby(LobbyMessage::PlayerSwitch(2, true))
        .is_none());
    assert_eq!(lobby.clone_profiles()[&2].display_name, "Two");
    assert_eq!(lobby.clone_teams()[&2], true);
    let mut settings = GameSettings::default();
    settings.powerup_chance = 80;
    assert!(lobby.handle_lobby(LobbyMessage::HostPush(settings)).is_none());
    assert_eq!(lobby.clone_settings().powerup_chance, 80);
    let start = lobby
        .handle_lobby(LobbyMessage::StartGame(StartGameInfo {
            settings: GameSettings::default(),
            initial_caught_state: HashMap::from_iter([(9, true)]),
        }))
        .expect("no start");
    assert_eq!(start.initial_caught_state, HashMap::from_iter([(9, true)]));
    let copy = start.clone();
    assert_eq!(copy.initial_caught_state, start.initial_caught_state);
}

/// A pool of lobbies whose transports hand each other what is sent. A
/// broadcast reaches every lobby that is still there, the sender too.
struct MockLobbyPool {
    uuids: Vec<Id>,
    lobbies: Vec<Lobby>,
    ends: Vec<Option<LobbyEnd>>,
    mail: std::collections::VecDeque<(usize, Id, TransportMessage)>,
}

impl MockLobbyPool {
    fn new(num_players: u32) -> Self {
        let uuids = (0..num_players)
            .map(|index| 1000 + index as Id * 17)
            .collect::<Vec<_>>();
        let lobbies = uuids
            .iter()
            .enumerate()
            .map(|(index, id)| {
                Lobby::new_with_id(
                    "aaa",
                    index == 0,
                    profile(&format!("Lobby {} ({})", index, id)),
                    GameSettings::default(),
                    *id,
                )
            })
            .collect();
        Self {
            ends: uuids.iter().map(|_| None).collect(),
            uuids,
            lobbies,
            mail: std::collections::VecDeque::new(),
        }
    }

    fn send(&mut self, from: usize, to: Option<Id>, message: TransportMessage) {
        for index in 0..self.lobbies.len() {
            if to.is_none() || to == Some(self.uuids[index]) {
                self.mail
                    .push_back((index, self.uuids[from], message.clone()));
            }
        }
    }

    fn wait(&mut self) {
        while let Some((to, from, message)) = self.mail.pop_front() {
            if self.ends[to].is_some() {
                continue;
            }
            let step = self.lobbies[to].handle_message(Some(from), message);
            for (peer, reply) in step.replies {
                self.send(to, Some(peer), reply.into());
            }
            self.ends[to] = step.end;
        }
    }

    fn player_join(&mut self, index: usize) {
        let id = self.uuids[index];
        for other in 0..self.lobbies.len() {
            if other != index {
                self.mail
                    .push_back((other, id, TransportMessage::PeerConnect(id)));
            }
        }
    }

    fn switch_teams(&mut self, index: usize, seeker: bool) {
        let message = self.lobbies[index].switch_teams(seeker);
        self.send(index, None, message.into());
    }

    fn update_settings(&mut self, index: usize, settings: GameSettings) {
        if let Some(message) = self.lobbies[index].update_settings(settings) {
            self.send(index, None, message.into());
        }
    }

    fn start_game(&mut self, index: usize) {
        if let Some(message) = self.lobbies[index].start_game() {
            self.send(index, None, message.into());
        }
    }

    fn quit_lobby(&mut self, index: usize) {
        self.ends[index] = Some(LobbyEnd::Quit);
        let id = self.uuids[index];
        for other in 0..self.lobbies.len() {
            if other != index {
                self.mail
                    .push_back((other, id, TransportMessage::PeerDisconnect(id)));
            }
        }
    }
}

#[test]
fn test_joins() {
    let mut mat = MockLobbyPool::new(3);

    mat.player_join(0);
    mat.player_join(1);

    mat.wait();

    for i in 0..=1 {
        for j in 0..=1 {
            let state = mat.lobbies[i].clone_state();
            assert!(
                state.teams().contains_key(&mat.uuids[j]),
                "{i} doesn't have {j}'s uuid in teams"
            );
            assert!(
                state.profiles().contains_key(&mat.uuids[j]),
                "{i} doesn't have {j}'s uuid in profiles"
            );
        }
    }

    mat.switch_teams(0, true);

    mat.wait();

    mat.player_join(2);

    mat.wait();

    for (i, lobby) in mat.lobbies.iter().enumerate() {
        let state = lobby.clone_state();
        for j in 0..=2 {
            assert!(
                state.teams().contains_key(&mat.uuids[j]),
                "{i} doesn't have {j}'s uuid in teams"
            );
            assert!(
                state.profiles().contains_key(&mat.uuids[j]),
                "{i} doesn't have {j}'s uuid in profiles"
            );
            assert_eq!(
                state.teams().get(&mat.uuids[0]).copied(),
                Some(true),
                "{i} doesn't see 0 as a seeker"
            )
        }
    }
}

#[test]
fn test_team_switch() {
    let mut mat = MockLobbyPool::new(3);

    mat.switch_teams(2, true);

    mat.wait();

    for (i, lobby) in mat.lobbies.iter().enumerate() {
        assert_eq!(
            lobby.clone_teams().get(&mat.uuids[2]).copied(),
            Some(true),
            "{i} ({}) does not see 2 as a seeker",
            mat.uuids[i]
        );
    }
}

#[test]
fn test_update_settings() {
    let mut mat = MockLobbyPool::new(2);

    let mut settings = GameSettings::default();
    const UPDATED_ID: u32 = 284829;
    settings.hiding_time_seconds = UPDATED_ID;

    mat.update_settings(0, settings);

    mat.wait();

    for (i, lobby) in mat.lobbies.iter().enumerate() {
        assert_eq!(
            lobby.clone_settings().hiding_time_seconds,
            UPDATED_ID,
            "{i} ({}) did not get updated settings",
            mat.uuids[i]
        )
    }
}

#[test]
fn test_update_settings_not_host() {
    let mut mat = MockLobbyPool::new(2);

    let mut settings = GameSettings::default();
    let target = settings.hiding_time_seconds;
    const UPDATED_ID: u32 = 284829;
    settings.hiding_time_seconds = UPDATED_ID;

    mat.update_settings(1, settings);

    mat.wait();

    for (i, lobby) in mat.lobbies.iter().enumerate() {
        assert_eq!(
            lobby.clone_settings().hiding_time_seconds,
            target,
            "{i} ({}) updated settings despite 1 not being host",
            mat.uuids[i]
        )
    }
}

#[test]
fn test_game_start() {
    let mut mat = MockLobbyPool::new(4);

    for i in 0..3 {
        mat.player_join(i);
    }

    mat.switch_teams(2, true);

    let settings = GameSettings {
        hiding_time_seconds: 45,
        ..Default::default()
    };

    mat.update_settings(0, settings);

    mat.quit_lobby(3);

    mat.wait();

    mat.start_game(0);

    mat.wait();

    let ends = std::mem::take(&mut mat.ends);
    for (i, end) in ends.into_iter().enumerate() {
        match end {
            Some(LobbyEnd::Start(StartGameInfo {
                settings,
                initial_caught_state,
            })) => {
                assert_eq!(
                    settings.hiding_time_seconds, 45,
                    "Lobby {i} does not match pushed settings"
                );
                assert_eq!(
                    initial_caught_state.len(),
                    3,
                    "Lobby {i} does not have 3 entries in caught state"
                );
                assert_eq!(
                    initial_caught_state.get(&mat.uuids[2]).copied(),
                    Some(true),
                    "Lobby {i} does not see 2 as a seeker"
                );
                assert!(
                    initial_caught_state.keys().all(|id| *id != mat.uuids[3]),
                    "Lobby {i} still has a disconnected player saved in caught state"
                );
                let profiles = mat.lobbies[i].clone_profiles();
                assert_eq!(
                    profiles.len(),
                    3,
                    "Lobby {i} does not have 3 entries in profiles"
                );
                assert!(
                    profiles.keys().all(|id| *id != mat.uuids[3]),
                    "Lobby {i} still has a disconnected player saved in profiles"
                );
            }
            Some(LobbyEnd::Quit) => {
                if i != 3 {
                    panic!("Lobby {i} did not exit with start info");
                }
            }
            Some(LobbyEnd::Abort(why)) => {
                panic!("Lobby {i} had an error: {why:?}");
            }
            None => {
                panic!("Lobby {i} did not exit");
            }
        }
    }
}

#[test]
fn test_drop_player() {
    let mut mat = MockLobbyPool::new(3);

    mat.quit_lobby(1);

    assert!(
        matches!(mat.ends[1], Some(LobbyEnd::Quit)),
        "1 did not quit gracefully"
    );

    mat.wait();

    let id = mat.uuids[1];

    for (i, lobby) in mat.lobbies.iter().enumerate() {
        if mat.uuids[i] != id {
            assert!(
                !lobby.clone_teams().contains_key(&id),
                "{} has not been removed 1 from teams",
                i
            );
            assert!(
                !lobby.clone_profiles().contains_key(&id),
                "{} has not been removed 1 from profiles",
                i
            );
        }
    }
}
