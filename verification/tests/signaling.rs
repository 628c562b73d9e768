use manhunt::identity::Id;
use manhunt::signaling::{
    room_code_char_pool, Match, RoomError, ServerState, MAX_ROOM_TRIES, ROOM_CODE_LEN,
};
use manhunt::string_map::StringMap;

fn origin(p: u16) -> String {
    format!("127.0.0.1:{}", p)
}

fn peer(p: u16) -> Id {
    p as u128
}

fn handle_assign_add(state: &mut ServerState, create: bool, code: &str, p: u16) {
    state
        .handle_room(create, origin(p), code.to_string())
        .expect("Failed to handle room");
    state.assign_peer_id(origin(p), peer(p));
    assert!(state.can_add_peer(peer(p)));
    state.add_peer(peer(p));
}

fn quick_create(state: &mut ServerState, code: &str, p: u16) {
    handle_assign_add(state, true, code, p);
}

fn quick_join(state: &mut ServerState, code: &str, p: u16) {
    handle_assign_add(state, false, code, p);
}

fn players_of(state: &ServerState, code: &str) -> Option<Vec<Id>> {
    state.room_players(&code.to_string()).map(|mut players| {
        players.sort();
        players
    })
}

#[test]
fn test_add_waiting_host() {
    let mut state = ServerState::default();

    let code = "aaa";

    state
        .handle_room(true, origin(1), code.to_string())
        .expect("Could not create room");
    assert_eq!(state.waiting_count(), 1);
    assert_eq!(
        state.waiting_room(&origin(1)),
        Some((code.to_string(), true))
    );
    assert!(state.room_is_open(code))
}

#[test]
fn test_add_waiting_player() {
    let mut state = ServerState::default();

    let code = "aaaa";

    quick_create(&mut state, code, 1);

    state
        .handle_room(false, origin(2), code.to_string())
        .expect("Failed to join room");
    assert_eq!(state.waiting_count(), 1);
    assert_eq!(
        state.waiting_room(&origin(2)),
        Some((code.to_string(), false))
    );
}

#[test]
fn test_assign_id() {
    let mut state = ServerState::default();

    let code = "aaa";

    state
        .handle_room(true, origin(1), code.to_string())
        .expect("Could not create room");

    state.assign_peer_id(origin(1), peer(1));

    assert_eq!(state.waiting_count(), 0);
    assert_eq!(state.queued_count(), 1);
    assert_eq!(state.queued_room(peer(1)), Some((code.to_string(), true)));
}

#[test]
fn test_add_peer() {
    let mut state = ServerState::default();

    let code = "aaa";

    state
        .handle_room(true, origin(1), code.to_string())
        .expect("Could not create room");

    state.assign_peer_id(origin(1), peer(1));

    let added = state.add_peer(peer(1));

    assert_eq!(state.waiting_count(), 0);
    assert_eq!(state.queued_count(), 0);
    assert!(added.peers.is_empty());
    assert!(added.host);
    assert_eq!(added.room, code);
    assert!(state.client_room(peer(1)).is_some_and(|room| room == code));
    assert!(players_of(&state, code).is_some_and(|players| players.contains(&peer(1))));
}

#[test]
fn test_join_add_peer() {
    let mut state = ServerState::default();

    let code = "abcd";

    quick_create(&mut state, code, 1);

    state
        .handle_room(false, origin(2), code.to_string())
        .expect("Failed to join");
    state.assign_peer_id(origin(2), peer(2));

    let added = state.add_peer(peer(2));

    assert_eq!(added.peers, vec![peer(1)]);
    assert!(!added.host);
    assert!(state.client_room(peer(2)).is_some_and(|room| room == code));
    assert!(players_of(&state, code)
        .is_some_and(|players| players.contains(&peer(1)) && players.contains(&peer(2))));
}

#[test]
fn test_player_leave() {
    let mut state = ServerState::default();

    let code = "asdfasdfasdfasdf";

    quick_create(&mut state, code, 1);
    quick_join(&mut state, code, 2);

    let others = state.remove_peer(peer(2), false).map(|removed| removed.peers);

    assert_eq!(others, Some(vec![peer(1)]));
    assert!(players_of(&state, code)
        .is_some_and(|players| players.contains(&peer(1)) && !players.contains(&peer(2))));
    assert!(state.client_room(peer(2)).is_none());
}

#[test]
fn test_player_leave_only_one() {
    let mut state = ServerState::default();

    let code = "asdfasdfasdfasdf";

    quick_create(&mut state, code, 1);

    let others = state.remove_peer(peer(1), true).map(|removed| removed.peers);

    assert!(others.is_some_and(|v| v.is_empty()));
    assert_eq!(state.room_count(), 0);
    assert_eq!(state.client_count(), 0);
}

#[test]
fn test_host_leave_with_players() {
    let mut state = ServerState::default();

    let code = "asdfasdfasdfasdf";

    quick_create(&mut state, code, 1);
    quick_join(&mut state, code, 2);

    let removed = state.remove_peer(peer(1), true).expect("nobody removed");

    assert_eq!(removed.peers, vec![peer(2)]);
    assert!(removed.cancelled);
    assert_eq!(state.room_is_cancelled(&code.to_string()), Some(true));
    assert!(!state.room_is_open(code));
}

#[test]
fn test_host_leave_with_players_but_started() {
    let mut state = ServerState::default();

    let code = "asdfasdfasdfasdf";

    quick_create(&mut state, code, 1);
    quick_join(&mut state, code, 2);

    state.mark_started(&code.to_string());

    let removed = state.remove_peer(peer(1), true).expect("nobody removed");

    assert_eq!(removed.peers, vec![peer(2)]);
    assert!(!removed.cancelled);
    assert_eq!(state.room_is_cancelled(&code.to_string()), Some(false));
    assert!(!state.room_is_open(code));
}

#[test]
fn test_join_no_match() {
    let mut state = ServerState::default();

    let code = "asdfasdf";

    let res = state.handle_room(false, origin(1), code.to_string());
    assert_eq!(res, Err(RoomError::NotFound));
}

#[test]
fn test_create_exists() {
    let mut state = ServerState::default();

    let code = "cdf";

    quick_create(&mut state, code, 1);

    let res = state.handle_room(true, origin(2), code.to_string());
    assert_eq!(res, Err(RoomError::Exists));
}

#[test]
fn test_join_started() {
    let mut state = ServerState::default();

    let code = "qwerty";

    quick_create(&mut state, code, 1);
    quick_join(&mut state, code, 2);

    state.mark_started(&code.to_string());

    assert!(!state.room_is_open(code));
    assert!(state.check_room_taken(&code.to_string()));

    let res = state.handle_room(false, origin(3), code.to_string());
    assert_eq!(res, Err(RoomError::NotFound));
}

#[test]
fn a_refused_request_leaves_nobody_waiting() {
    let mut state = ServerState::new();
    assert_eq!(
        state.handle_room(false, origin(1), "nowhere".to_string()),
        Err(RoomError::NotFound)
    );
    assert!(!state.is_waiting(&origin(1)));
    assert_eq!(state.waiting_count(), 0);
    assert_eq!(state.room_count(), 0);
    assert!(!state.can_add_peer(peer(1)));
    assert!(state.remove_peer(peer(1), false).is_none());
}

#[test]
fn a_peer_whose_room_is_gone_cannot_be_added() {
    let mut state = ServerState::new();
    quick_create(&mut state, "room", 1);
    state
        .handle_room(false, origin(2), "room".to_string())
        .expect("Failed to join");
    state.assign_peer_id(origin(2), peer(2));
    // The host leaves before the second player is in: the room is deleted.
    let removed = state.remove_peer(peer(1), true).expect("nobody removed");
    assert!(removed.peers.is_empty());
    assert!(removed.cancelled);
    assert_eq!(removed.room, "room");
    assert_eq!(state.room_count(), 0);
    assert!(!state.can_add_peer(peer(2)));
}

#[test]
fn marking_an_unknown_room_changes_nothing() {
    let mut state = ServerState::new();
    quick_create(&mut state, "here", 1);
    state.mark_started(&"there".to_string());
    assert!(state.room_is_open("here"));
    assert_eq!(state.room_count(), 1);
    assert_eq!(state.room_is_cancelled(&"there".to_string()), None);
}

#[test]
fn a_room_code_is_six_different_characters_of_the_pool() {
    assert_eq!(room_code_char_pool(), "ABCDEFGHIJKLMNOPQRSTUVWXYZ1234567890");
    assert_eq!(ROOM_CODE_LEN, 6);
    assert_eq!(MAX_ROOM_TRIES, 25);
    let mut state = ServerState::new();
    let mut codes = Vec::new();
    for p in 0..40 {
        let code = state.generate_room_code().expect("no free code");
        assert_eq!(code.len(), 6);
        assert!(code.chars().all(|c| room_code_char_pool().contains(c)));
        for (index, c) in code.chars().enumerate() {
            assert!(!code[index + 1..].contains(c), "{} repeats {}", code, c);
        }
        assert!(!state.check_room_taken(&code));
        quick_create(&mut state, &code, p);
        assert!(state.check_room_taken(&code));
        codes.push(code);
    }
    codes.sort();
    codes.dedup();
    assert_eq!(codes.len(), 40);
}

#[test]
fn a_new_room_is_open_and_empty() {
    let room = Match::new();
    assert!(room.open_lobby);
    assert!(!room.cancelled);
    assert!(room.players.is_empty());
}

#[test]
fn a_string_map_holds_one_value_for_each_key() {
    let mut map: StringMap<u32> = StringMap::new();
    assert!(map.is_empty());
    map.insert("a".to_string(), 1);
    map.insert("b".to_string(), 2);
    map.insert("a".to_string(), 3);
    assert_eq!(map.len(), 2);
    assert_eq!(map.get(&"a".to_string()), Some(&3));
    assert_eq!(map.get(&"b".to_string()), Some(&2));
    assert_eq!(map.get(&"c".to_string()), None);
    assert!(map.contains_key(&"b".to_string()));
    assert_eq!(map.remove(&"a".to_string()), Some(3));
    assert_eq!(map.remove(&"a".to_string()), None);
    assert!(!map.contains_key(&"a".to_string()));
    assert_eq!(map.len(), 1);
    assert!(!map.is_empty());
}
