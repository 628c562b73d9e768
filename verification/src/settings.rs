//! What the players agree on before a session starts.

use crate::location::Location;
use crate::random::{random_seed, PERCENT};
use vstd::prelude::*;

verus! {

/// When something that recurs in a session is to begin.
#[derive(Clone, Copy, Debug, PartialEq, Eq, Structural)]
pub enum PingStartCondition {
    /// Once this many players are seekers.
    Players(u32),
    /// This many minutes after the seekers were released.
    Minutes(u32),
    /// At once.
    Instant,
}

/// Settings of a session. They do not change while it runs.
#[derive(Debug)]
pub struct GameSettings {
    /// The seed of the randomness that all replicas share.
    pub random_seed: u32,
    /// Seconds the hiders have before the seekers are released.
    pub hiding_time_seconds: u32,
    /// When the periodic reveals begin.
    pub ping_start: PingStartCondition,
    /// Minutes between two reveals.
    pub ping_minutes_interval: u32,
    /// When the rolls for power-ups begin.
    pub powerup_start: PingStartCondition,
    /// Chance of a roll to spawn a power-up, out of 100.
    pub powerup_chance: u32,
    /// Minutes between two rolls.
    pub powerup_minutes_cooldown: u32,
    /// Places where a power-up may spawn.
    pub powerup_locations: Vec<Location>,
}

/// The settings as plain values.
pub struct SettingsModel {
    pub random_seed: u32,
    pub hiding_time_seconds: u32,
    pub ping_start: PingStartCondition,
    pub ping_minutes_interval: u32,
    pub powerup_start: PingStartCondition,
    pub powerup_chance: u32,
    pub powerup_minutes_cooldown: u32,
    pub powerup_locations: Seq<Location>,
}

impl SettingsModel {
    /// Settings that a session can run on: the chance is a percentage.
    pub open spec fn valid(self) -> bool {
        self.powerup_chance <= PERCENT
    }
}

impl View for GameSettings {
    type V = SettingsModel;

    open spec fn view(&self) -> SettingsModel {
        SettingsModel {
            random_seed: self.random_seed,
            hiding_time_seconds: self.hiding_time_seconds,
            ping_start: self.ping_start,
            ping_minutes_interval: self.ping_minutes_interval,
            powerup_start: self.powerup_start,
            powerup_chance: self.powerup_chance,
            powerup_minutes_cooldown: self.powerup_minutes_cooldown,
            powerup_locations: self.powerup_locations@,
        }
    }
}

impl Clone for GameSettings {
    fn clone(&self) -> (copy: Self)
        ensures
            copy@ == self@,
    {
        GameSettings {
            random_seed: self.random_seed,
            hiding_time_seconds: self.hiding_time_seconds,
            ping_start: self.ping_start,
            ping_minutes_interval: self.ping_minutes_interval,
            powerup_start: self.powerup_start,
            powerup_chance: self.powerup_chance,
            powerup_minutes_cooldown: self.powerup_minutes_cooldown,
            powerup_locations: self.powerup_locations.clone(),
        }
    }
}

impl Default for GameSettings {
    /// The settings a new lobby starts from, with a seed drawn at random.
    fn default() -> (settings: Self)
        ensures
            settings@.valid(),
            settings.hiding_time_seconds == 60,
            settings.ping_start == PingStartCondition::Players(2),
            settings.ping_minutes_interval == 3,
            settings.powerup_start == PingStartCondition::Minutes(5),
            settings.powerup_chance == 25,
            settings.powerup_minutes_cooldown == 5,
            settings.powerup_locations@ == Seq::<Location>::empty(),
    {
        GameSettings {
            random_seed: random_seed(),
            hiding_time_seconds: 60,
            ping_start: PingStartCondition::Players(2),
            ping_minutes_interval: 3,
            powerup_start: PingStartCondition::Minutes(5),
            powerup_chance: 25,
            powerup_minutes_cooldown: 5,
            powerup_locations: Vec::new(),
        }
    }
}

} // verus!
