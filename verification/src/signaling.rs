//! The rooms of the signaling server: who waits for which room, who is in
//! it, and whether it can still be joined.
//!
//! A client is first known by the address it connects from, then by the
//! identity it is assigned, and is then added to its room.

use crate::collections::set_members;
use crate::identity::Id;
use crate::random::random_code;
use crate::string_map::StringMap;
use std::collections::{HashMap, HashSet};
use vstd::prelude::*;

verus! {

/// The code of a room.
pub type RoomId = String;

/// The address a client connects from, as text.
pub type Origin = String;

/// The characters a room code is drawn from: the capital letters and the
/// digits, each once.
pub fn room_code_char_pool() -> (pool: &'static str)
    ensures
        pool@ == "ABCDEFGHIJKLMNOPQRSTUVWXYZ1234567890"@,
        pool.is_ascii(),
        pool@.len() == 36,
        pool@.no_duplicates(),
        forall|i: int| 0 <= i < pool@.len() ==> spec_in_pool(#[trigger] pool@[i]),
{
    let pool = "ABCDEFGHIJKLMNOPQRSTUVWXYZ1234567890";
    proof {
        reveal_strlit("ABCDEFGHIJKLMNOPQRSTUVWXYZ1234567890");
        assert(pool@.len() == 36);
        assert forall|i: int| 0 <= i < pool@.len() implies spec_in_pool(#[trigger] pool@[i]) by {
            lemma_pool_chars(pool@, i);
        }
        assert forall|i: int, j: int|
            0 <= i < pool@.len() && 0 <= j < pool@.len() && i != j implies pool@[i]
            != pool@[j] by {
            lemma_pool_chars(pool@, i);
            lemma_pool_chars(pool@, j);
        }
    }
    pool
}

/// The code point of the character at a place of the pool: the letters come
/// first, then the digits from 1 to 9, then 0.
pub open spec fn spec_pool_code_point(i: int) -> int {
    if i < 26 {
        'A' as int + i
    } else if i < 35 {
        '1' as int + (i - 26)
    } else {
        '0' as int
    }
}

/// Each of the 36 characters of the pool is a capital letter or a digit,
/// and stands at the place that its code point gives.
proof fn lemma_pool_chars(pool: Seq<char>, i: int)
    requires
        pool == "ABCDEFGHIJKLMNOPQRSTUVWXYZ1234567890"@,
        0 <= i < 36,
    ensures
        spec_in_pool(pool[i]),
        pool[i] as int == spec_pool_code_point(i),
{
    reveal_strlit("ABCDEFGHIJKLMNOPQRSTUVWXYZ1234567890");
    if i < 9 {
        assert(i == 0 || i == 1 || i == 2 || i == 3 || i == 4 || i == 5 || i == 6 || i == 7 || i
            == 8);
    } else if i < 18 {
        assert(i == 9 || i == 10 || i == 11 || i == 12 || i == 13 || i == 14 || i == 15 || i == 16
            || i == 17);
    } else if i < 27 {
        assert(i == 18 || i == 19 || i == 20 || i == 21 || i == 22 || i == 23 || i == 24 || i
            == 25 || i == 26);
    } else {
        assert(i == 27 || i == 28 || i == 29 || i == 30 || i == 31 || i == 32 || i == 33 || i
            == 34 || i == 35);
    }
}

/// Number of characters in a room code.
pub const ROOM_CODE_LEN: usize = 6;

/// How often a room code is drawn before the server gives up.
pub const MAX_ROOM_TRIES: usize = 25;

/// Why a request for a room was refused.
#[derive(Debug, Clone, Copy, PartialEq, Eq, Structural)]
pub enum RoomError {
    /// Room already exists
    Exists,
    /// Room was not found
    NotFound,
}

/// No free room code was found.
#[derive(Debug, Default, Clone, Copy)]
pub struct NoRoomsError;

/// A room and the players in it.
#[derive(Debug)]
pub struct Match {
    /// Whether the room can still be joined.
    pub open_lobby: bool,
    /// Whether the players of the room have been told to disconnect.
    pub cancelled: bool,
    /// The players in the room.
    pub players: HashSet<Id>,
}

/// A room as plain values.
pub struct MatchModel {
    pub open_lobby: bool,
    pub cancelled: bool,
    pub players: Set<Id>,
}

impl View for Match {
    type V = MatchModel;

    open spec fn view(&self) -> MatchModel {
        MatchModel {
            open_lobby: self.open_lobby,
            cancelled: self.cancelled,
            players: self.players@,
        }
    }
}

impl Match {
    /// A room that is open and empty.
    pub fn new() -> (room: Match)
        ensures
            room@ == MatchModel::new(),
    {
        Match { open_lobby: true, cancelled: false, players: HashSet::with_capacity(10) }
    }
}

impl MatchModel {
    /// A room that is open and empty.
    pub open spec fn new() -> MatchModel {
        MatchModel { open_lobby: true, cancelled: false, players: Set::empty() }
    }
}

/// The state of the server as plain values.
pub struct ServerModel {
    /// Clients that have asked for a room and have no identity yet, by
    /// address: the room, and whether the client hosts it.
    pub waiting: Map<Seq<char>, (Seq<char>, bool)>,
    /// Clients that have an identity and are not in their room yet.
    pub queued: Map<Id, (Seq<char>, bool)>,
    /// The rooms, by code.
    pub matches: Map<Seq<char>, MatchModel>,
    /// The room of each client that is in one.
    pub clients: Map<Id, Seq<char>>,
}

/// What adding a peer to its room comes to.
#[derive(Debug)]
pub struct AddedPeer {
    /// Whether the peer hosts the room.
    pub host: bool,
    /// The room.
    pub room: RoomId,
    /// The peers that were in the room before, in no particular order.
    pub peers: Vec<Id>,
}

/// What removing a peer from its room comes to.
#[derive(Debug)]
pub struct RemovedPeer {
    /// The room the peer was in.
    pub room: RoomId,
    /// The peers that are left in the room, in no particular order.
    pub peers: Vec<Id>,
    /// Whether the players of the room are told to disconnect: the host has
    /// left a room that was still open.
    pub cancelled: bool,
}

impl ServerModel {
    /// A server without rooms and clients.
    pub open spec fn new() -> ServerModel {
        ServerModel {
            waiting: Map::empty(),
            queued: Map::empty(),
            matches: Map::empty(),
            clients: Map::empty(),
        }
    }

    /// Whether the room exists and can be joined.
    pub open spec fn room_is_open(self, room: Seq<char>) -> bool {
        self.matches.contains_key(room) && self.matches[room].open_lobby
    }

    /// The server after a room has been marked as started: it exists on,
    /// and can no longer be joined.
    pub open spec fn mark_started(self, room: Seq<char>) -> ServerModel {
        if self.matches.contains_key(room) {
            ServerModel {
                matches: self.matches.insert(
                    room,
                    MatchModel { open_lobby: false, ..self.matches[room] },
                ),
                ..self
            }
        } else {
            self
        }
    }

    /// Whether a request for a room is granted, and why not.
    pub open spec fn room_verdict(self, create: bool, code: Seq<char>) -> Result<(), RoomError> {
        if create {
            if self.matches.contains_key(code) {
                Err(RoomError::Exists)
            } else {
                Ok(())
            }
        } else {
            if self.room_is_open(code) {
                Ok(())
            } else {
                Err(RoomError::NotFound)
            }
        }
    }

    /// The server after a request for a room. A request that is granted
    /// makes the client wait for the room, and a host's request makes the
    /// room.
    pub open spec fn handle_room(self, create: bool, origin: Seq<char>, code: Seq<char>) -> ServerModel {
        if self.room_verdict(create, code) is Err {
            self
        } else if create {
            ServerModel {
                matches: self.matches.insert(code, MatchModel::new()),
                waiting: self.waiting.insert(origin, (code, true)),
                ..self
            }
        } else {
            ServerModel { waiting: self.waiting.insert(origin, (code, false)), ..self }
        }
    }

    /// The server after the client at `origin` has been assigned an
    /// identity.
    pub open spec fn assign_peer_id(self, origin: Seq<char>, peer: Id) -> ServerModel {
        ServerModel {
            waiting: self.waiting.remove(origin),
            queued: self.queued.insert(peer, self.waiting[origin]),
            ..self
        }
    }

    /// Whether a peer can be added to its room: it has an identity and
    /// waits for a room that exists.
    pub open spec fn can_add_peer(self, peer: Id) -> bool {
        self.queued.contains_key(peer) && self.matches.contains_key(self.queued[peer].0)
    }

    /// The server after a peer has been added to its room.
    pub open spec fn add_peer(self, peer: Id) -> ServerModel {
        let room = self.queued[peer].0;
        ServerModel {
            queued: self.queued.remove(peer),
            matches: self.matches.insert(
                room,
                MatchModel {
                    players: self.matches[room].players.insert(peer),
                    ..self.matches[room]
                },
            ),
            clients: self.clients.insert(peer, room),
            ..self
        }
    }

    /// The peers that are left in the room of `peer` once it has gone.
    pub open spec fn peers_left(self, peer: Id) -> Set<Id> {
        let room = self.clients[peer];
        if self.matches.contains_key(room) {
            self.matches[room].players.remove(peer)
        } else {
            Set::empty()
        }
    }

    /// Whether the departure of `peer` tells the rest of its room to
    /// disconnect: it is the host, and the room is still open.
    pub open spec fn cancels_room(self, peer: Id, host: bool) -> bool {
        host && self.room_is_open(self.clients[peer])
    }

    /// The server after a peer has gone. A room that a host leaves while it
    /// is open is closed. A room that nobody is left in is deleted.
    pub open spec fn remove_peer(self, peer: Id, host: bool) -> ServerModel {
        if !self.clients.contains_key(peer) {
            self
        } else {
            let room = self.clients[peer];
            let clients = self.clients.remove(peer);
            if !self.matches.contains_key(room) {
                ServerModel { clients, ..self }
            } else if self.peers_left(peer) == Set::<Id>::empty() {
                ServerModel { clients, matches: self.matches.remove(room), ..self }
            } else {
                let left = MatchModel { players: self.peers_left(peer), ..self.matches[room] };
                let closed = if self.cancels_room(peer, host) {
                    MatchModel { open_lobby: false, cancelled: true, ..left }
                } else {
                    left
                };
                ServerModel { clients, matches: self.matches.insert(room, closed), ..self }
            }
        }
    }
}

/// Whether `c` is one of the characters of a room code.
pub open spec fn spec_in_pool(c: char) -> bool {
    ('A' <= c <= 'Z') || ('0' <= c <= '9')
}

/// Whether `code` can be drawn as a room code: six characters of the pool,
/// none of them twice.
pub open spec fn spec_is_room_code(code: Seq<char>) -> bool {
    &&& code.len() == ROOM_CODE_LEN
    &&& code.no_duplicates()
    &&& forall|i: int| 0 <= i < code.len() ==> spec_in_pool(#[trigger] code[i])
}

/// The first of the codes drawn that no room has, if there is one.
pub open spec fn spec_first_free(matches: Map<Seq<char>, MatchModel>, draws: Seq<Seq<char>>) -> Option<
    Seq<char>,
>
    decreases draws.len(),
{
    if draws.len() == 0 {
        None
    } else if !matches.contains_key(draws[0]) {
        Some(draws[0])
    } else {
        spec_first_free(matches, draws.drop_first())
    }
}

/// The code that a search for a free code came to, if it came to one.
pub open spec fn spec_code_found(res: Result<RoomId, NoRoomsError>) -> Option<Seq<char>> {
    match res {
        Ok(code) => Some(code@),
        Err(_) => None,
    }
}

/// Where every code drawn before a place is taken, the first free code is
/// the one at that place if it is free, and there is none if the place is
/// the end of the draws.
pub proof fn lemma_first_free_after_taken(
    matches: Map<Seq<char>, MatchModel>,
    draws: Seq<Seq<char>>,
    at: int,
)
    requires
        0 <= at <= draws.len(),
        forall|i: int| 0 <= i < at ==> matches.contains_key(#[trigger] draws[i]),
        at < draws.len() ==> !matches.contains_key(draws[at]),
    ensures
        spec_first_free(matches, draws) == if at < draws.len() {
            Some(draws[at])
        } else {
            None
        },
    decreases draws.len(),
{
    if draws.len() > 0 && at > 0 {
        let rest = draws.drop_first();
        assert(matches.contains_key(draws[0]));
        assert forall|i: int| 0 <= i < at - 1 implies matches.contains_key(#[trigger] rest[i]) by {
            assert(rest[i] == draws[i + 1]);
        }
        lemma_first_free_after_taken(matches, rest, at - 1);
    }
}

/// The rooms by code, as plain values.
pub open spec fn spec_matches_view(matches: Map<Seq<char>, Match>) -> Map<Seq<char>, MatchModel> {
    matches.map_values(|room: Match| room@)
}

/// The waiting clients by address, as plain values.
pub open spec fn spec_waiting_view(waiting: Map<Seq<char>, (String, bool)>) -> Map<
    Seq<char>,
    (Seq<char>, bool),
> {
    waiting.map_values(|entry: (String, bool)| (entry.0@, entry.1))
}

/// The queued clients by identity, as plain values.
pub open spec fn spec_queued_view(queued: Map<Id, (String, bool)>) -> Map<Id, (Seq<char>, bool)> {
    queued.map_values(|entry: (String, bool)| (entry.0@, entry.1))
}

/// The rooms of the clients, as plain values.
pub open spec fn spec_clients_view(clients: Map<Id, String>) -> Map<Id, Seq<char>> {
    clients.map_values(|room: String| room@)
}

/// The state of the signaling server.
#[derive(Debug)]
pub struct ServerState {
    waiting_clients: StringMap<(RoomId, bool)>,
    queued_clients: HashMap<Id, (RoomId, bool)>,
    matches: StringMap<Match>,
    clients: HashMap<Id, RoomId>,
}

impl View for ServerState {
    type V = ServerModel;

    closed spec fn view(&self) -> ServerModel {
        ServerModel {
            waiting: spec_waiting_view(self.waiting_clients@),
            queued: spec_queued_view(self.queued_clients@),
            matches: spec_matches_view(self.matches@),
            clients: spec_clients_view(self.clients@),
        }
    }
}

impl Default for ServerState {
    fn default() -> (state: Self)
        ensures
            state.wf(),
            state@ == ServerModel::new(),
    {
        ServerState::new()
    }
}

impl ServerState {
    /// What holds of every state that `new` made and the methods below
    /// changed.
    pub closed spec fn wf(&self) -> bool {
        self.waiting_clients.wf() && self.matches.wf()
    }

    /// A server without rooms and clients.
    pub fn new() -> (state: ServerState)
        ensures
            state.wf(),
            state@ == ServerModel::new(),
    {
        let state = ServerState {
            waiting_clients: StringMap::new(),
            queued_clients: HashMap::new(),
            matches: StringMap::new(),
            clients: HashMap::new(),
        };
        assert(state@.waiting =~= Map::empty());
        assert(state@.queued =~= Map::empty());
        assert(state@.matches =~= Map::empty());
        assert(state@.clients =~= Map::empty());
        state
    }

    /// Whether a room has the code.
    pub fn check_room_taken(&self, code: &RoomId) -> (taken: bool)
        requires
            self.wf(),
        ensures
            taken == self@.matches.contains_key(code@),
    {
        self.matches.contains_key(code)
    }

    /// A code that no room has: up to 25 codes are drawn at random, one
    /// after the other, and the first that is free is handed back. The
    /// search fails only when every one of 25 codes drawn is taken, so it
    /// succeeds wherever no room has a code that can be drawn.
    pub fn generate_room_code(&self) -> (res: Result<RoomId, NoRoomsError>)
        requires
            self.wf(),
        ensures
            res is Ok ==> spec_is_room_code(res->Ok_0@) && !self@.matches.contains_key(
                res->Ok_0@,
            ),
            exists|draws: Seq<Seq<char>>|
                {
                    &&& draws.len() == MAX_ROOM_TRIES
                    &&& forall|i: int|
                        0 <= i < draws.len() ==> spec_is_room_code(#[trigger] draws[i])
                    &&& spec_code_found(res) == #[trigger] spec_first_free(self@.matches, draws)
                },
            (forall|code: Seq<char>|
                self@.matches.contains_key(code) ==> !spec_is_room_code(code)) ==> res is Ok,
    {
        let pool = room_code_char_pool();
        let ghost mut drawn: Seq<Seq<char>> = Seq::empty();
        let mut tries: usize = 0;
        while tries < MAX_ROOM_TRIES
            invariant
                self.wf(),
                tries <= MAX_ROOM_TRIES,
                pool.is_ascii(),
                pool@.len() == 36,
                pool@.no_duplicates(),
                forall|i: int| 0 <= i < pool@.len() ==> spec_in_pool(#[trigger] pool@[i]),
                drawn.len() == tries,
                forall|i: int|
                    0 <= i < drawn.len() ==> spec_is_room_code(#[trigger] drawn[i])
                        && self@.matches.contains_key(drawn[i]),
            decreases MAX_ROOM_TRIES - tries,
        {
            let code = random_code(pool, ROOM_CODE_LEN);
            proof {
                assert forall|i: int| 0 <= i < code@.len() implies spec_in_pool(
                    #[trigger] code@[i],
                ) by {
                    assert(pool@.contains(code@[i]));
                    let j = choose|j: int| 0 <= j < pool@.len() && pool@[j] == code@[i];
                    assert(spec_in_pool(pool@[j]));
                }
                assert(spec_is_room_code(code@));
            }
            if !self.check_room_taken(&code) {
                proof {
                    let found = code@;
                    let draws = Seq::new(
                        MAX_ROOM_TRIES as nat,
                        |i: int|
                            if i < drawn.len() {
                                drawn[i]
                            } else {
                                found
                            },
                    );
                    assert forall|i: int| 0 <= i < draws.len() implies spec_is_room_code(
                        #[trigger] draws[i],
                    ) by {
                        if i < drawn.len() {
                            assert(spec_is_room_code(drawn[i]));
                        }
                    }
                    assert forall|i: int| 0 <= i < tries implies self@.matches.contains_key(
                        #[trigger] draws[i],
                    ) by {
                        assert(draws[i] == drawn[i]);
                    }
                    lemma_first_free_after_taken(self@.matches, draws, tries as int);
                    assert(spec_first_free(self@.matches, draws) == Some(found));
                }
                return Ok(code);
            }
            proof {
                drawn = drawn.push(code@);
            }
            tries = tries + 1;
        }
        proof {
            lemma_first_free_after_taken(self@.matches, drawn, drawn.len() as int);
            assert(spec_is_room_code(drawn[0]) && self@.matches.contains_key(drawn[0]));
        }
        Err(NoRoomsError)
    }

    /// Whether the room exists and can be joined.
    pub fn room_is_open(&self, room_id: &str) -> (open: bool)
        requires
            self.wf(),
        ensures
            open == self@.room_is_open(room_id@),
    {
        let key = room_id.to_owned();
        match self.matches.get(&key) {
            Some(room) => room.open_lobby,
            None => false,
        }
    }

    /// Mark a match as started, disallowing others from joining
    pub fn mark_started(&mut self, room: &RoomId)
        requires
            old(self).wf(),
        ensures
            final(self).wf(),
            final(self)@ == old(self)@.mark_started(room@),
    {
        match self.matches.remove(room) {
            Some(mat) => {
                let started = Match {
                    open_lobby: false,
                    cancelled: mat.cancelled,
                    players: mat.players,
                };
                self.matches.insert(room.clone(), started);
                assert(self@.matches =~= old(self)@.mark_started(room@).matches);
            },
            None => {
                assert(self@.matches =~= old(self)@.matches);
            },
        }
    }

    /// Try to create / join a room
    pub fn handle_room(&mut self, create: bool, origin: Origin, code: RoomId) -> (res: Result<
        (),
        RoomError,
    >)
        requires
            old(self).wf(),
        ensures
            final(self).wf(),
            res == old(self)@.room_verdict(create, code@),
            final(self)@ == old(self)@.handle_room(create, origin@, code@),
    {
        if create {
            if self.matches.contains_key(&code) {
                Err(RoomError::Exists)
            } else {
                self.matches.insert(code.clone(), Match::new());
                self.waiting_clients.insert(origin, (code, true));
                assert(self@.matches =~= old(self)@.matches.insert(code@, MatchModel::new()));
                assert(self@.waiting =~= old(self)@.waiting.insert(origin@, (code@, true)));
                Ok(())
            }
        } else {
            if self.room_is_open(code.as_str()) {
                self.waiting_clients.insert(origin, (code, false));
                assert(self@.waiting =~= old(self)@.waiting.insert(origin@, (code@, false)));
                Ok(())
            } else {
                Err(RoomError::NotFound)
            }
        }
    }

    /// Whether a client waits at `origin` for its identity.
    pub fn is_waiting(&self, origin: &Origin) -> (waiting: bool)
        requires
            self.wf(),
        ensures
            waiting == self@.waiting.contains_key(origin@),
    {
        self.waiting_clients.contains_key(origin)
    }

    /// Assign a peer an id
    pub fn assign_peer_id(&mut self, origin: Origin, peer_id: Id)
        requires
            old(self).wf(),
            old(self)@.waiting.contains_key(origin@),
        ensures
            final(self).wf(),
            final(self)@ == old(self)@.assign_peer_id(origin@, peer_id),
    {
        broadcast use vstd::std_specs::hash::group_hash_axioms;

        match self.waiting_clients.remove(&origin) {
            Some(target_room) => {
                self.queued_clients.insert(peer_id, target_room);
                assert(self@.waiting =~= old(self)@.waiting.remove(origin@));
                assert(self@.queued =~= old(self)@.queued.insert(
                    peer_id,
                    old(self)@.waiting[origin@],
                ));
            },
            None => {},
        }
    }

    /// Whether a peer can be added to its room: it has an identity and
    /// waits for a room that exists.
    pub fn can_add_peer(&self, peer_id: Id) -> (can: bool)
        requires
            self.wf(),
        ensures
            can == self@.can_add_peer(peer_id),
    {
        broadcast use vstd::std_specs::hash::group_hash_axioms;

        match self.queued_clients.get(&peer_id) {
            Some(entry) => self.matches.contains_key(&entry.0),
            None => false,
        }
    }

    /// Add a peer to a room, returns other peers in the match currently
    pub fn add_peer(&mut self, peer_id: Id) -> (added: AddedPeer)
        requires
            old(self).wf(),
            old(self)@.can_add_peer(peer_id),
        ensures
            final(self).wf(),
            final(self)@ == old(self)@.add_peer(peer_id),
            added.host == old(self)@.queued[peer_id].1,
            added.room@ == old(self)@.queued[peer_id].0,
            added.peers@.no_duplicates(),
            added.peers@.to_set() == old(self)@.matches[old(self)@.queued[peer_id].0].players,
    {
        broadcast use vstd::std_specs::hash::group_hash_axioms;

        let (target_room, host) = match self.queued_clients.remove(&peer_id) {
            Some(entry) => entry,
            None => (String::new(), false),
        };
        let mut mat = match self.matches.remove(&target_room) {
            Some(mat) => mat,
            None => Match::new(),
        };
        let peers = set_members(&mat.players);
        mat.players.insert(peer_id);
        self.matches.insert(target_room.clone(), mat);
        self.clients.insert(peer_id, target_room.clone());
        assert(self@.queued =~= old(self)@.queued.remove(peer_id));
        assert(self@.matches =~= old(self)@.add_peer(peer_id).matches);
        assert(self@.clients =~= old(self)@.clients.insert(peer_id, target_room@));
        AddedPeer { host, room: target_room, peers }
    }

    /// Disconnect a peer from a room. Automatically deletes the room if no
    /// peers remain. Returns the room, the other peers in the room that need
    /// to be notified, and whether they are to be disconnected.
    pub fn remove_peer(&mut self, peer_id: Id, host: bool) -> (removed: Option<RemovedPeer>)
        requires
            old(self).wf(),
        ensures
            final(self).wf(),
            final(self)@ == old(self)@.remove_peer(peer_id, host),
            removed is Some == old(self)@.clients.contains_key(peer_id),
            removed is Some ==> {
                &&& removed->0.room@ == old(self)@.clients[peer_id]
                &&& removed->0.peers@.no_duplicates()
                &&& removed->0.peers@.to_set() == old(self)@.peers_left(peer_id)
                &&& removed->0.cancelled == old(self)@.cancels_room(peer_id, host)
            },
    {
        broadcast use vstd::std_specs::hash::group_hash_axioms;

        let room = match self.clients.remove(&peer_id) {
            Some(room) => room,
            None => {
                assert(self@.clients =~= old(self)@.clients);
                return None;
            },
        };
        assert(self@.clients =~= old(self)@.clients.remove(peer_id));
        let mut mat = match self.matches.remove(&room) {
            Some(mat) => mat,
            None => {
                assert(self@.matches =~= old(self)@.matches);
                let peers: Vec<Id> = Vec::new();
                assert(peers@.to_set() =~= Set::<Id>::empty());
                return Some(RemovedPeer { room, peers, cancelled: false });
            },
        };
        mat.players.remove(&peer_id);
        let other_peers = set_members(&mat.players);
        let mut cancelled = false;
        if host && mat.open_lobby {
            // If we're host, disconnect everyone else
            mat.open_lobby = false;
            mat.cancelled = true;
            cancelled = true;
        }
        if other_peers.len() == 0 {
            assert(mat.players@ =~= Set::<Id>::empty());
            assert(self@.matches =~= old(self)@.matches.remove(room@));
        } else {
            assert(other_peers@.to_set().contains(other_peers@[0]));
            self.matches.insert(room.clone(), mat);
            assert(self@.matches =~= old(self)@.remove_peer(peer_id, host).matches);
        }
        Some(RemovedPeer { room, peers: other_peers, cancelled })
    }

    /// The room that the client at `origin` waits for, and whether it
    /// hosts it.
    pub fn waiting_room(&self, origin: &Origin) -> (entry: Option<(RoomId, bool)>)
        requires
            self.wf(),
        ensures
            entry is Some == self@.waiting.contains_key(origin@),
            entry matches Some(found) ==> (found.0@, found.1) == self@.waiting[origin@],
    {
        match self.waiting_clients.get(origin) {
            Some(entry) => Some((entry.0.clone(), entry.1)),
            None => None,
        }
    }

    /// How many clients wait for their identity.
    pub fn waiting_count(&self) -> (count: usize)
        requires
            self.wf(),
        ensures
            count == self@.waiting.dom().len(),
    {
        proof {
            self.waiting_clients.lemma_finite();
            assert(self@.waiting.dom() =~= self.waiting_clients@.dom());
        }
        self.waiting_clients.len()
    }

    /// The room that a client with an identity waits for, and whether it
    /// hosts it.
    pub fn queued_room(&self, peer_id: Id) -> (entry: Option<(RoomId, bool)>)
        ensures
            entry is Some == self@.queued.contains_key(peer_id),
            entry matches Some(found) ==> (found.0@, found.1) == self@.queued[peer_id],
    {
        broadcast use vstd::std_specs::hash::group_hash_axioms;

        match self.queued_clients.get(&peer_id) {
            Some(entry) => Some((entry.0.clone(), entry.1)),
            None => None,
        }
    }

    /// How many clients with an identity wait for their room.
    pub fn queued_count(&self) -> (count: usize)
        ensures
            count == self@.queued.dom().len(),
    {
        broadcast use vstd::std_specs::hash::group_hash_axioms;

        assert(self@.queued.dom() =~= self.queued_clients@.dom());
        self.queued_clients.len()
    }

    /// The room a client is in.
    pub fn client_room(&self, peer_id: Id) -> (room: Option<RoomId>)
        ensures
            room is Some == self@.clients.contains_key(peer_id),
            room is Some ==> room->0@ == self@.clients[peer_id],
    {
        broadcast use vstd::std_specs::hash::group_hash_axioms;

        match self.clients.get(&peer_id) {
            Some(room) => Some(room.clone()),
            None => None,
        }
    }

    /// How many clients are in a room.
    pub fn client_count(&self) -> (count: usize)
        ensures
            count == self@.clients.dom().len(),
    {
        broadcast use vstd::std_specs::hash::group_hash_axioms;

        assert(self@.clients.dom() =~= self.clients@.dom());
        self.clients.len()
    }

    /// The players in a room, in no particular order.
    pub fn room_players(&self, room: &RoomId) -> (players: Option<Vec<Id>>)
        requires
            self.wf(),
        ensures
            players is Some == self@.matches.contains_key(room@),
            players is Some ==> players->0@.no_duplicates() && players->0@.to_set()
                == self@.matches[room@].players,
    {
        match self.matches.get(room) {
            Some(mat) => Some(set_members(&mat.players)),
            None => None,
        }
    }

    /// Whether the players of a room have been told to disconnect.
    pub fn room_is_cancelled(&self, room: &RoomId) -> (cancelled: Option<bool>)
        requires
            self.wf(),
        ensures
            cancelled is Some == self@.matches.contains_key(room@),
            cancelled is Some ==> cancelled->0 == self@.matches[room@].cancelled,
    {
        match self.matches.get(room) {
            Some(mat) => Some(mat.cancelled),
            None => None,
        }
    }

    /// How many rooms there are.
    pub fn room_count(&self) -> (count: usize)
        requires
            self.wf(),
        ensures
            count == self@.matches.dom().len(),
    {
        proof {
            self.matches.lemma_finite();
            assert(self@.matches.dom() =~= self.matches@.dom());
        }
        self.matches.len()
    }
}

} // verus!
