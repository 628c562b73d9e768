//! The power-ups a hider can pick up.

use crate::identity::Id;
use crate::location::Location;
use vstd::prelude::*;

verus! {

/// Type of power-up.
#[derive(Clone, Copy, Debug, PartialEq, Eq, Structural)]
pub enum PowerUpType {
    /// At the holder's next reveal, a random seeker is revealed in the
    /// holder's place and under the holder's name.
    PingSeeker,
    /// Every seeker reveals where it is, once, at once.
    PingAllSeekers,
    /// Another random hider reveals where it is, at once.
    ForcePingOther,
}

impl PowerUpType {
    /// Every type of power-up, in the order in which a pick-up draws from them.
    pub fn all_types() -> (types: [PowerUpType; 3])
        ensures
            types@ == seq![
                PowerUpType::ForcePingOther,
                PowerUpType::PingAllSeekers,
                PowerUpType::PingSeeker,
            ],
    {
        [PowerUpType::ForcePingOther, PowerUpType::PingAllSeekers, PowerUpType::PingSeeker]
    }
}

/// How a power-up is used.
#[derive(Clone, Copy, Debug, PartialEq, Eq, Structural)]
pub enum PowerUpUsage {
    /// The holder's next reveal shows a random seeker in its place.
    PingSeeker,
    /// Every seeker reveals itself.
    PingAllSeekers,
    /// This other hider reveals itself.
    ForcePingOther(Id),
}

/// When the use of a power-up takes effect.
#[derive(Clone, Copy, Debug, PartialEq, Eq, Structural)]
pub enum PowerUpTiming {
    /// The moment it is used.
    Instant,
    /// At the holder's next reveal.
    NextPing,
}

impl PowerUpUsage {
    /// When this use takes effect: the disguise waits for the next reveal,
    /// every other use acts at once.
    pub fn timing(&self) -> (timing: PowerUpTiming)
        ensures
            timing == self.spec_timing(),
    {
        match self {
            PowerUpUsage::PingSeeker => PowerUpTiming::NextPing,
            PowerUpUsage::ForcePingOther(_) => PowerUpTiming::Instant,
            PowerUpUsage::PingAllSeekers => PowerUpTiming::Instant,
        }
    }

    /// When this use takes effect.
    pub open spec fn spec_timing(&self) -> PowerUpTiming {
        match *self {
            PowerUpUsage::PingSeeker => PowerUpTiming::NextPing,
            _ => PowerUpTiming::Instant,
        }
    }
}

impl PowerUpType {
    /// When the use of a power-up of this type takes effect.
    pub fn timing(&self) -> (timing: PowerUpTiming)
        ensures
            timing == self.spec_timing(),
    {
        match self {
            PowerUpType::PingSeeker => PowerUpTiming::NextPing,
            PowerUpType::PingAllSeekers => PowerUpTiming::Instant,
            PowerUpType::ForcePingOther => PowerUpTiming::Instant,
        }
    }

    /// When the use of a power-up of this type takes effect.
    pub open spec fn spec_timing(&self) -> PowerUpTiming {
        match *self {
            PowerUpType::PingSeeker => PowerUpTiming::NextPing,
            _ => PowerUpTiming::Instant,
        }
    }
}

/// A power-up on the map that a hider can pick up.
#[derive(Clone, Copy, Debug, PartialEq, Eq, Structural)]
pub struct PowerUp {
    /// Where it lies.
    pub loc: Location,
    /// What it is.
    pub typ: PowerUpType,
}

impl PowerUp {
    /// A power-up of type `typ` at `loc`.
    pub fn new(loc: Location, typ: PowerUpType) -> (powerup: PowerUp)
        ensures
            powerup == (PowerUp { loc, typ }),
    {
        PowerUp { loc, typ }
    }
}

} // verus!
