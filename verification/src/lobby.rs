//! The lobby in which the players gather before a session.

use crate::identity::Id;
use crate::profile::{PlayerProfile, ProfileModel};
use crate::settings::{GameSettings, SettingsModel};
use crate::transport::{MessageModel, TransportMessage};
use std::collections::HashMap;
use vstd::prelude::*;

verus! {

/// What a session starts from: the settings, and who seeks first.
#[derive(Debug)]
pub struct StartGameInfo {
    pub settings: GameSettings,
    /// For each player, whether it starts as a seeker.
    pub initial_caught_state: HashMap<Id, bool>,
}

/// The start of a session as plain values.
pub struct StartInfoModel {
    pub settings: SettingsModel,
    pub initial_caught_state: Map<Id, bool>,
}

impl View for StartGameInfo {
    type V = StartInfoModel;

    open spec fn view(&self) -> StartInfoModel {
        StartInfoModel {
            settings: self.settings@,
            initial_caught_state: self.initial_caught_state@,
        }
    }
}

impl Clone for StartGameInfo {
    fn clone(&self) -> (copy: Self)
        ensures
            copy@ == self@,
    {
        StartGameInfo {
            settings: self.settings.clone(),
            initial_caught_state: self.initial_caught_state.clone(),
        }
    }
}

/// A message between the players in a lobby.
#[derive(Debug)]
pub enum LobbyMessage {
    /// The profile of a player, sent to a peer that is new.
    PlayerSync(Id, PlayerProfile),
    /// The settings, sent by the host.
    HostPush(GameSettings),
    /// The host starts the session.
    StartGame(StartGameInfo),
    /// A player has switched teams: `true` for the seekers.
    PlayerSwitch(Id, bool),
}

/// A lobby message as plain values.
pub enum LobbyMessageModel {
    PlayerSync(Id, ProfileModel),
    HostPush(SettingsModel),
    StartGame(StartInfoModel),
    PlayerSwitch(Id, bool),
}

impl View for LobbyMessage {
    type V = LobbyMessageModel;

    open spec fn view(&self) -> LobbyMessageModel {
        match *self {
            LobbyMessage::PlayerSync(player, profile) => LobbyMessageModel::PlayerSync(
                player,
                profile@,
            ),
            LobbyMessage::HostPush(settings) => LobbyMessageModel::HostPush(settings@),
            LobbyMessage::StartGame(info) => LobbyMessageModel::StartGame(info@),
            LobbyMessage::PlayerSwitch(player, seeker) => LobbyMessageModel::PlayerSwitch(
                player,
                seeker,
            ),
        }
    }
}

impl Clone for LobbyMessage {
    fn clone(&self) -> (copy: Self)
        ensures
            copy@ == self@,
    {
        match self {
            LobbyMessage::PlayerSync(player, profile) => LobbyMessage::PlayerSync(
                *player,
                profile.clone(),
            ),
            LobbyMessage::HostPush(settings) => LobbyMessage::HostPush(settings.clone()),
            LobbyMessage::StartGame(info) => LobbyMessage::StartGame(info.clone()),
            LobbyMessage::PlayerSwitch(player, seeker) => LobbyMessage::PlayerSwitch(
                *player,
                *seeker,
            ),
        }
    }
}

/// The state of a lobby as one player sees it.
#[derive(Debug)]
pub struct LobbyState {
    profiles: HashMap<Id, PlayerProfile>,
    join_code: String,
    /// `true` stands for seeker, `false` for hider.
    teams: HashMap<Id, bool>,
    self_id: Id,
    is_host: bool,
    settings: GameSettings,
}

/// The state of a lobby as plain values.
pub struct LobbyModel {
    pub profiles: Map<Id, ProfileModel>,
    pub join_code: Seq<char>,
    pub teams: Map<Id, bool>,
    pub self_id: Id,
    pub is_host: bool,
    pub settings: SettingsModel,
}

/// The profiles of the players as plain values.
pub open spec fn spec_profiles_view(profiles: Map<Id, PlayerProfile>) -> Map<Id, ProfileModel> {
    profiles.map_values(|profile: PlayerProfile| profile@)
}

impl View for LobbyState {
    type V = LobbyModel;

    closed spec fn view(&self) -> LobbyModel {
        LobbyModel {
            profiles: spec_profiles_view(self.profiles@),
            join_code: self.join_code@,
            teams: self.teams@,
            self_id: self.self_id,
            is_host: self.is_host,
            settings: self.settings@,
        }
    }
}

impl LobbyState {
    /// The profiles of the players.
    pub fn profiles(&self) -> (profiles: &HashMap<Id, PlayerProfile>)
        ensures
            spec_profiles_view(profiles@) == self@.profiles,
    {
        &self.profiles
    }

    /// The code under which the lobby is joined.
    pub fn join_code(&self) -> (code: &String)
        ensures
            code@ == self@.join_code,
    {
        &self.join_code
    }

    /// The team of each player: `true` for the seekers.
    pub fn teams(&self) -> (teams: &HashMap<Id, bool>)
        ensures
            teams@ == self@.teams,
    {
        &self.teams
    }

    /// The player whose lobby this is.
    pub fn self_id(&self) -> (id: Id)
        ensures
            id == self@.self_id,
    {
        self.self_id
    }

    /// Whether that player is the host.
    pub fn is_host(&self) -> (host: bool)
        ensures
            host == self@.is_host,
    {
        self.is_host
    }

    /// The settings as the lobby has them.
    pub fn settings(&self) -> (settings: &GameSettings)
        ensures
            settings@ == self@.settings,
    {
        &self.settings
    }
}

/// What a message leaves for the lobby's loop to do, as plain values.
pub struct LobbyStepModel {
    /// The lobby afterwards.
    pub state: LobbyModel,
    /// The messages to send, each to the peer named, in order.
    pub replies: Seq<(Id, LobbyMessageModel)>,
    /// How the loop ends, if it does.
    pub end: Option<LobbyEndModel>,
}

/// How the loop of a lobby ends, as plain values.
pub enum LobbyEndModel {
    /// The session starts with this.
    Start(StartInfoModel),
    /// The transport has disconnected as asked.
    Quit,
    /// The transport has failed with this message.
    Abort(Seq<char>),
}

impl LobbyModel {
    /// What holds of every lobby: the player itself has a profile and a
    /// team.
    pub open spec fn wf(self) -> bool {
        self.profiles.contains_key(self.self_id) && self.teams.contains_key(self.self_id)
    }

    /// The lobby of a player that has just come in: it knows itself only,
    /// as a hider.
    pub open spec fn new(
        join_code: Seq<char>,
        is_host: bool,
        profile: ProfileModel,
        settings: SettingsModel,
        self_id: Id,
    ) -> LobbyModel {
        LobbyModel {
            profiles: Map::<Id, ProfileModel>::empty().insert(self_id, profile),
            join_code,
            teams: Map::<Id, bool>::empty().insert(self_id, false),
            self_id,
            is_host,
            settings,
        }
    }

    /// The lobby after a lobby message, and the start of the session where
    /// the message is the host's signal.
    pub open spec fn handle_lobby(self, message: LobbyMessageModel) -> (
        LobbyModel,
        Option<StartInfoModel>,
    ) {
        match message {
            LobbyMessageModel::PlayerSync(peer, profile) => (
                LobbyModel { profiles: self.profiles.insert(peer, profile), ..self },
                None,
            ),
            LobbyMessageModel::HostPush(settings) => (LobbyModel { settings, ..self }, None),
            LobbyMessageModel::StartGame(info) => (self, Some(info)),
            LobbyMessageModel::PlayerSwitch(peer, seeker) => (
                LobbyModel { teams: self.teams.insert(peer, seeker), ..self },
                None,
            ),
        }
    }

    /// What a new peer is told: this player's profile and team, and from
    /// the host the settings.
    pub open spec fn greeting(self, peer: Id) -> Seq<(Id, LobbyMessageModel)> {
        let own = seq![
            (peer, LobbyMessageModel::PlayerSync(self.self_id, self.profiles[self.self_id])),
            (peer, LobbyMessageModel::PlayerSwitch(self.self_id, self.teams[self.self_id])),
        ];
        if self.is_host {
            own.push((peer, LobbyMessageModel::HostPush(self.settings)))
        } else {
            own
        }
    }

    /// What a message of the transport does to the lobby.
    pub open spec fn handle_message(self, message: MessageModel) -> LobbyStepModel {
        match message {
            MessageModel::Disconnected => LobbyStepModel {
                state: self,
                replies: Seq::empty(),
                end: Some(LobbyEndModel::Quit),
            },
            MessageModel::Error(why) => LobbyStepModel {
                state: self,
                replies: Seq::empty(),
                end: Some(LobbyEndModel::Abort(why)),
            },
            MessageModel::Lobby(message) => LobbyStepModel {
                state: self.handle_lobby(message).0,
                replies: Seq::empty(),
                end: match self.handle_lobby(message).1 {
                    Some(info) => Some(LobbyEndModel::Start(info)),
                    None => None,
                },
            },
            MessageModel::PeerConnect(peer) => LobbyStepModel {
                state: self,
                replies: self.greeting(peer),
                end: None,
            },
            MessageModel::PeerDisconnect(peer) => LobbyStepModel {
                state: if peer != self.self_id {
                    LobbyModel {
                        profiles: self.profiles.remove(peer),
                        teams: self.teams.remove(peer),
                        ..self
                    }
                } else {
                    self
                },
                replies: Seq::empty(),
                end: None,
            },
            _ => LobbyStepModel { state: self, replies: Seq::empty(), end: None },
        }
    }

    /// The lobby after this player has chosen a team.
    pub open spec fn switch_teams(self, seeker: bool) -> LobbyModel {
        LobbyModel { teams: self.teams.insert(self.self_id, seeker), ..self }
    }

    /// The lobby after the host has changed the settings. Anyone else
    /// changes nothing.
    pub open spec fn update_settings(self, settings: SettingsModel) -> LobbyModel {
        if self.is_host {
            LobbyModel { settings, ..self }
        } else {
            self
        }
    }

    /// What a session started from this lobby starts with.
    pub open spec fn start_info(self) -> StartInfoModel {
        StartInfoModel { settings: self.settings, initial_caught_state: self.teams }
    }
}

/// How the loop of a lobby ends.
#[derive(Debug)]
pub enum LobbyEnd {
    /// The session starts with this.
    Start(StartGameInfo),
    /// The transport has disconnected as asked: there is no session.
    Quit,
    /// The transport has failed with this message.
    Abort(String),
}

impl View for LobbyEnd {
    type V = LobbyEndModel;

    open spec fn view(&self) -> LobbyEndModel {
        match *self {
            LobbyEnd::Start(info) => LobbyEndModel::Start(info@),
            LobbyEnd::Quit => LobbyEndModel::Quit,
            LobbyEnd::Abort(why) => LobbyEndModel::Abort(why@),
        }
    }
}

/// What a message leaves for the lobby's loop to do.
#[derive(Debug)]
pub struct LobbyStep {
    /// The messages to send, each to the peer named, in order.
    pub replies: Vec<(Id, LobbyMessage)>,
    /// How the loop ends, if it does.
    pub end: Option<LobbyEnd>,
}

/// Addressed lobby messages as plain values.
pub open spec fn spec_reply_views(replies: Seq<(Id, LobbyMessage)>) -> Seq<
    (Id, LobbyMessageModel),
> {
    Seq::new(replies.len(), |i: int| (replies[i].0, replies[i].1@))
}

/// The end of a loop that may be there, as plain values.
pub open spec fn spec_end_view(end: Option<LobbyEnd>) -> Option<LobbyEndModel> {
    match end {
        Some(end) => Some(end@),
        None => None,
    }
}

/// The part of a lobby that decides: it keeps the state, and says what is
/// to be sent.
#[derive(Debug)]
pub struct Lobby {
    state: LobbyState,
}

impl View for Lobby {
    type V = LobbyModel;

    closed spec fn view(&self) -> LobbyModel {
        self.state@
    }
}

impl Lobby {
    /// What holds of every lobby that `new_with_id` made and the methods
    /// below changed.
    pub open spec fn wf(&self) -> bool {
        self@.wf()
    }

    /// The lobby of the player `self_id`, which has just come in.
    pub fn new_with_id(
        join_code: &str,
        is_host: bool,
        profile: PlayerProfile,
        settings: GameSettings,
        self_id: Id,
    ) -> (lobby: Lobby)
        ensures
            lobby.wf(),
            lobby@ == LobbyModel::new(join_code@, is_host, profile@, settings@, self_id),
    {
        broadcast use vstd::std_specs::hash::group_hash_axioms;

        let mut teams: HashMap<Id, bool> = HashMap::new();
        teams.insert(self_id, false);
        let mut profiles: HashMap<Id, PlayerProfile> = HashMap::new();
        profiles.insert(self_id, profile);
        let lobby = Lobby {
            state: LobbyState {
                teams,
                join_code: join_code.to_owned(),
                profiles,
                self_id,
                is_host,
                settings,
            },
        };
        assert(lobby@.profiles =~= Map::<Id, ProfileModel>::empty().insert(self_id, profile@));
        lobby
    }

    /// Whether this player hosts the lobby.
    pub fn is_host(&self) -> (host: bool)
        ensures
            host == self@.is_host,
    {
        self.state.is_host
    }

    /// This player.
    pub fn self_id(&self) -> (id: Id)
        ensures
            id == self@.self_id,
    {
        self.state.self_id
    }

    /// The code under which the lobby is joined.
    pub fn join_code(&self) -> (code: &String)
        ensures
            code@ == self@.join_code,
    {
        &self.state.join_code
    }

    /// Applies a message of the lobby. Hands back what the session starts
    /// with where the message is the host's signal to start.
    pub fn handle_lobby(&mut self, msg: LobbyMessage) -> (start: Option<StartGameInfo>)
        requires
            old(self).wf(),
        ensures
            final(self).wf(),
            final(self)@ == old(self)@.handle_lobby(msg@).0,
            start is Some == old(self)@.handle_lobby(msg@).1 is Some,
            start is Some ==> start->0@ == old(self)@.handle_lobby(msg@).1->0,
    {
        broadcast use vstd::std_specs::hash::group_hash_axioms;

        match msg {
            LobbyMessage::PlayerSync(peer, player_profile) => {
                self.state.profiles.insert(peer, player_profile);
                assert(self@.profiles =~= old(self)@.profiles.insert(peer, player_profile@));
            },
            LobbyMessage::HostPush(game_settings) => {
                self.state.settings = game_settings;
            },
            LobbyMessage::StartGame(start_game_info) => {
                return Some(start_game_info);
            },
            LobbyMessage::PlayerSwitch(peer, seeker) => {
                self.state.teams.insert(peer, seeker);
            },
        }
        None
    }

    /// Applies a message of the transport. A peer that is new is told who
    /// this player is; a peer that has left is forgotten; the end of the
    /// transport, and the host's signal to start, end the loop.
    pub fn handle_message(&mut self, _peer: Option<Id>, msg: TransportMessage) -> (step: LobbyStep)
        requires
            old(self).wf(),
        ensures
            final(self).wf(),
            final(self)@ == old(self)@.handle_message(msg@).state,
            spec_reply_views(step.replies@) == old(self)@.handle_message(msg@).replies,
            spec_end_view(step.end) == old(self)@.handle_message(msg@).end,
    {
        broadcast use vstd::std_specs::hash::group_hash_axioms;

        let mut replies: Vec<(Id, LobbyMessage)> = Vec::new();
        let end = match msg {
            TransportMessage::Disconnected => Some(LobbyEnd::Quit),
            TransportMessage::Error(why) => Some(LobbyEnd::Abort(why)),
            TransportMessage::Lobby(lobby_message) => match self.handle_lobby(*lobby_message) {
                Some(start) => Some(LobbyEnd::Start(start)),
                None => None,
            },
            TransportMessage::PeerConnect(peer) => {
                let id = self.state.self_id;
                let profile = match self.state.profiles.get(&id) {
                    Some(profile) => profile.clone(),
                    None => PlayerProfile::default(),
                };
                let seeker = match self.state.teams.get(&id) {
                    Some(seeker) => *seeker,
                    None => false,
                };
                replies.push((peer, LobbyMessage::PlayerSync(id, profile)));
                replies.push((peer, LobbyMessage::PlayerSwitch(id, seeker)));
                if self.state.is_host {
                    replies.push((peer, LobbyMessage::HostPush(self.state.settings.clone())));
                }
                None
            },
            TransportMessage::PeerDisconnect(peer) => {
                if peer != self.state.self_id {
                    self.state.profiles.remove(&peer);
                    self.state.teams.remove(&peer);
                    assert(self@.profiles =~= old(self)@.profiles.remove(peer));
                }
                None
            },
            _ => None,
        };
        assert(spec_reply_views(replies@) =~= old(self)@.handle_message(msg@).replies);
        LobbyStep { replies, end }
    }

    /// The profiles of all players in the lobby.
    pub fn clone_profiles(&self) -> (profiles: HashMap<Id, PlayerProfile>)
        ensures
            spec_profiles_view(profiles@) == self@.profiles,
    {
        self.state.profiles.clone()
    }

    /// The teams of all players in the lobby.
    pub fn clone_teams(&self) -> (teams: HashMap<Id, bool>)
        ensures
            teams@ == self@.teams,
    {
        self.state.teams.clone()
    }

    /// A copy of the settings.
    pub fn clone_settings(&self) -> (settings: GameSettings)
        ensures
            settings@ == self@.settings,
    {
        self.state.settings.clone()
    }

    /// A copy of the state of the lobby.
    pub fn clone_state(&self) -> (state: LobbyState)
        ensures
            state@ == self@,
    {
        LobbyState {
            profiles: self.state.profiles.clone(),
            join_code: self.state.join_code.clone(),
            teams: self.state.teams.clone(),
            self_id: self.state.self_id,
            is_host: self.state.is_host,
            settings: self.state.settings.clone(),
        }
    }

    /// Sets this player's team. Hands back the message that tells the
    /// others.
    pub fn switch_teams(&mut self, seeker: bool) -> (msg: LobbyMessage)
        requires
            old(self).wf(),
        ensures
            final(self).wf(),
            final(self)@ == old(self)@.switch_teams(seeker),
            msg@ == LobbyMessageModel::PlayerSwitch(old(self)@.self_id, seeker),
    {
        broadcast use vstd::std_specs::hash::group_hash_axioms;

        let id = self.state.self_id;
        self.state.teams.insert(id, seeker);
        LobbyMessage::PlayerSwitch(id, seeker)
    }

    /// The host changes the settings. Hands back the message that tells the
    /// others; anyone but the host changes nothing and has nothing to tell.
    pub fn update_settings(&mut self, new_settings: GameSettings) -> (msg: Option<LobbyMessage>)
        requires
            old(self).wf(),
        ensures
            final(self).wf(),
            final(self)@ == old(self)@.update_settings(new_settings@),
            msg is Some == old(self)@.is_host,
            msg is Some ==> msg->0@ == LobbyMessageModel::HostPush(new_settings@),
    {
        if self.state.is_host {
            self.state.settings = new_settings.clone();
            Some(LobbyMessage::HostPush(new_settings))
        } else {
            None
        }
    }

    /// The host starts the session. Hands back the message that tells
    /// everyone, the host itself included; anyone but the host has nothing
    /// to tell.
    pub fn start_game(&self) -> (msg: Option<LobbyMessage>)
        ensures
            msg is Some == self@.is_host,
            msg is Some ==> msg->0@ == LobbyMessageModel::StartGame(self@.start_info()),
    {
        if self.state.is_host {
            let start_game_info = StartGameInfo {
                settings: self.state.settings.clone(),
                initial_caught_state: self.state.teams.clone(),
            };
            Some(LobbyMessage::StartGame(start_game_info))
        } else {
            None
        }
    }
}

} // verus!
