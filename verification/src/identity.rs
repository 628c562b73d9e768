//! Who is who in a session.

use vstd::prelude::*;

verus! {

/// The identifier of a participant: stable, unique, and drawn at random when
/// the participant connects. All maps of a session are keyed by it.
pub type Id = u128;

} // verus!
