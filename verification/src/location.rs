//! Places on the map, and where they come from.

use vstd::prelude::*;

verus! {

/// A position as the device reported it. The rules never compute with
/// coordinates: they store positions and hand them on. Each coordinate is
/// kept as the bit pattern of its IEEE 754 double, which loses nothing.
#[derive(Clone, Copy, Debug, PartialEq, Eq, Structural)]
pub struct Location {
    /// Bits of the latitude.
    pub lat: u64,
    /// Bits of the longitude.
    pub long: u64,
    /// Bits of the bearing, where the device could tell it.
    pub heading: Option<u64>,
}

/// A source of positions of the local device.
pub trait LocationService {
    /// The present position, or nothing when none can be had.
    fn get_loc(&self) -> Option<Location>;
}

} // verus!
