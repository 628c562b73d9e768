//! The two sources of chance of a session.
//!
//! Shared draws come from a ChaCha20 generator that is seeded anew for every
//! draw with the session's cursor, so every replica that holds the same
//! cursor draws the same values. Draws of one player's own come from the
//! thread's generator and are agreed with nobody.

use rand::distr::{Bernoulli, Distribution};
use rand::seq::IndexedRandom;
use rand::{Rng, SeedableRng};
use rand_chacha::ChaCha20Rng;
use vstd::prelude::*;

verus! {

/// Percent chances are out of this.
pub const PERCENT: u32 = 100;

/// The step by which a cursor seeded with `seed` advances: the first value
/// in `-100..100` that a ChaCha20 generator seeded with `seed` yields.
pub uninterp spec fn spec_seed_increment(seed: u64) -> i64;

/// Whether the first draw of a ChaCha20 generator seeded with `seed`
/// succeeds, where a draw succeeds in `chance` of 100 cases.
pub uninterp spec fn spec_shared_roll(seed: u64, chance: u32) -> bool;

/// The index below `len` that a ChaCha20 generator seeded with `seed` yields
/// after the draw of `spec_shared_roll`.
pub uninterp spec fn spec_shared_pick(seed: u64, chance: u32, len: usize) -> usize;

/// Seeds a generator with `ChaCha20Rng::seed_from_u64` and takes
/// `Rng::random_range(-100..100)` from it. The result depends on the seed
/// alone and lies in the range.
#[verifier::external_body]
pub(crate) fn seed_increment(seed: u64) -> (increment: i64)
    ensures
        increment == spec_seed_increment(seed),
        -100 <= increment < 100,
{
    ChaCha20Rng::seed_from_u64(seed).random_range(-100..100)
}

/// Seeds a generator with `ChaCha20Rng::seed_from_u64` and samples
/// `Bernoulli::from_ratio(chance, 100)` from it. The result depends on the
/// seed and the chance alone; a chance of 100 always succeeds and a chance
/// of 0 never does.
#[verifier::external_body]
pub(crate) fn shared_roll(seed: u64, chance: u32) -> (hit: bool)
    requires
        chance <= PERCENT,
    ensures
        hit == spec_shared_roll(seed, chance),
        chance == PERCENT ==> hit,
        chance == 0 ==> !hit,
{
    let mut rng = ChaCha20Rng::seed_from_u64(seed);
    Bernoulli::from_ratio(chance, PERCENT).unwrap().sample(&mut rng)
}

/// Seeds a generator with `ChaCha20Rng::seed_from_u64`, samples
/// `Bernoulli::from_ratio(chance, 100)` from it as `shared_roll` does, and
/// then takes `Rng::random_range(..len)`, which is how `IndexedRandom::choose`
/// finds its index. The result depends on the arguments alone and lies below
/// `len`.
#[verifier::external_body]
pub(crate) fn shared_pick(seed: u64, chance: u32, len: usize) -> (index: usize)
    requires
        chance <= PERCENT,
        len > 0,
    ensures
        index == spec_shared_pick(seed, chance, len),
        index < len,
{
    let mut rng = ChaCha20Rng::seed_from_u64(seed);
    let _ = Bernoulli::from_ratio(chance, PERCENT).unwrap().sample(&mut rng);
    rng.random_range(..len)
}

/// Picks one of `items` with `IndexedRandom::choose` and the thread's
/// generator. Nothing comes back only where there is nothing to pick from;
/// which item comes back is left open.
#[verifier::external_body]
pub(crate) fn choose_random<T: Copy>(items: &[T]) -> (picked: Option<T>)
    ensures
        items@.len() == 0 ==> picked is None,
        items@.len() > 0 ==> picked is Some && items@.contains(picked->0),
{
    items.choose(&mut rand::rng()).copied()
}

/// A seed for a new session, from `rand::random_range(0..=u32::MAX)`.
/// Nothing is claimed of it.
#[verifier::external_body]
pub(crate) fn random_seed() -> u32 {
    rand::random_range(0..=u32::MAX)
}

/// An index into the alphabet, from `rand::random_range(0..26)`.
#[verifier::external_body]
pub(crate) fn random_letter_index() -> (index: u8)
    ensures
        index < 26,
{
    rand::random_range(0..26)
}

/// Draws `amount` characters from `pool` with `IndexedRandom::choose_multiple`
/// and the thread's generator, which picks places of the pool without
/// repetition and hands them out in random order. Every character drawn is
/// one of the pool; from a pool without repetition none is drawn twice.
#[verifier::external_body]
pub(crate) fn random_code(pool: &str, amount: usize) -> (code: String)
    requires
        pool.is_ascii(),
    ensures
        code@.len() == if amount <= pool@.len() {
            amount as nat
        } else {
            pool@.len()
        },
        forall|i: int| 0 <= i < code@.len() ==> pool@.contains(#[trigger] code@[i]),
        pool@.no_duplicates() ==> code@.no_duplicates(),
{
    pool.as_bytes().choose_multiple(&mut rand::rng(), amount).copied().map(char::from).collect()
}

} // verus!
