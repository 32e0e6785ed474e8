//! Deterministic random stream: seed -> reproducible pseudo-random draws.
//!
//! The raw entropy comes from `rand::rngs::StdRng`, whose word stream is a
//! value-stable function of its seed.  Every higher-level draw (ranges,
//! coin flips, index picks) is derived from that stream by verified code,
//! so each draw is pinned down as a function of the seed and the number of
//! words taken so far.

use vstd::prelude::*;

verus! {

/// The stream of 64-bit words that `rand::rngs::StdRng` produces from a
/// given `u64` seed: `rng_word(seed, k)` is the `k`-th word drawn after
/// `StdRng::seed_from_u64(seed)`.  rand documents both `seed_from_u64`
/// and `StdRng`'s output as value-stable, so the stream is a function of
/// the seed alone.
pub uninterp spec fn rng_word(seed: u64, k: int) -> u64;

#[verifier::external_type_specification]
#[verifier::external_body]
pub struct ExStdRng(rand::rngs::StdRng);

/// A deterministic random stream: a `StdRng` seeded from `seed`, from
/// which `drawn` words have been taken so far.
pub struct FuzzerRng {
    inner: rand::rngs::StdRng,
    seed: Ghost<u64>,
    drawn: Ghost<int>,
}

impl FuzzerRng {
    /// The seed this stream was created from.
    pub closed spec fn seed(&self) -> u64 {
        self.seed@
    }

    /// How many words have been taken from the stream so far.
    pub closed spec fn drawn(&self) -> int {
        self.drawn@
    }
}

/// Relies on rand's `StdRng::seed_from_u64`: a fresh generator whose word
/// stream is a function of `seed` alone.
#[verifier::external_body]
fn fresh_std_rng(seed: u64) -> rand::rngs::StdRng {
    <rand::rngs::StdRng as rand::SeedableRng>::seed_from_u64(seed)
}

/// A fresh deterministic stream for `seed`, with no words taken yet.
pub fn rng_from_seed(seed: u64) -> (r: FuzzerRng)
    ensures
        r.seed() == seed,
        r.drawn() == 0,
{
    FuzzerRng { inner: fresh_std_rng(seed), seed: Ghost(seed), drawn: Ghost(0int) }
}

/// Relies on rand's `RngCore::next_u64` on `StdRng`: the next word of the
/// deterministic stream named by `rng_word`.
#[verifier::external_body]
pub(crate) fn next_word(rng: &mut FuzzerRng) -> (r: u64)
    ensures
        final(rng).seed() == old(rng).seed(),
        final(rng).drawn() == old(rng).drawn() + 1,
        r == rng_word(old(rng).seed(), old(rng).drawn()),
{
    rand::RngCore::next_u64(&mut rng.inner)
}

/// The value in `[lo, hi]` that a stream word `w` selects.
pub open spec fn word_in_range_u64(w: u64, lo: u64, hi: u64) -> u64
    recommends
        lo <= hi,
{
    (lo as int + (w as int) % (hi as int - lo as int + 1)) as u64
}

/// The value in `[lo, hi]` that a stream word `w` selects.
pub open spec fn word_in_range_i64(w: u64, lo: i64, hi: i64) -> i64
    recommends
        lo <= hi,
{
    (lo as int + (w as int) % (hi as int - lo as int + 1)) as i64
}

/// The index below `n` that a stream word `w` selects.
pub open spec fn word_index(w: u64, n: int) -> int
    recommends
        0 < n,
{
    w as int % n
}

impl FuzzerRng {
    /// Draw a value uniformly-by-remainder from `[lo, hi]`.
    pub fn next_range_u64(&mut self, lo: u64, hi: u64) -> (r: u64)
        requires
            lo <= hi,
        ensures
            final(self).seed() == old(self).seed(),
            final(self).drawn() == old(self).drawn() + 1,
            r == word_in_range_u64(rng_word(old(self).seed(), old(self).drawn()), lo, hi),
            lo <= r <= hi,
    {
        let w = next_word(self);
        if lo == 0 && hi == u64::MAX {
            w
        } else {
            lo + w % (hi - lo + 1)
        }
    }

    /// Draw a value uniformly-by-remainder from `[lo, hi]`.
    pub fn next_range_i64(&mut self, lo: i64, hi: i64) -> (r: i64)
        requires
            lo <= hi,
        ensures
            final(self).seed() == old(self).seed(),
            final(self).drawn() == old(self).drawn() + 1,
            r == word_in_range_i64(rng_word(old(self).seed(), old(self).drawn()), lo, hi),
            lo <= r <= hi,
    {
        let w = next_word(self);
        assert(0 <= hi as i128 - lo as i128 <= u64::MAX as i128);
        let span_minus_one: u64 = ((hi as i128) - (lo as i128)) as u64;
        assert(span_minus_one as int == hi as int - lo as int);
        if span_minus_one == u64::MAX {
            assert((w as int) % (hi as int - lo as int + 1) == w as int);
            ((lo as i128) + (w as i128)) as i64
        } else {
            let off: u64 = w % (span_minus_one + 1);
            assert(off as int == (w as int) % (hi as int - lo as int + 1));
            ((lo as i128) + (off as i128)) as i64
        }
    }

    /// Flip a coin that comes up true with probability `percent` / 100.
    pub fn next_bool_percent(&mut self, percent: u64) -> (r: bool)
        ensures
            final(self).seed() == old(self).seed(),
            final(self).drawn() == old(self).drawn() + 1,
            r == (rng_word(old(self).seed(), old(self).drawn()) % 100 < percent),
    {
        let w = next_word(self);
        w % 100 < percent
    }

    /// Draw an index in `[0, n)`.
    pub fn next_index(&mut self, n: usize) -> (r: usize)
        requires
            0 < n,
        ensures
            final(self).seed() == old(self).seed(),
            final(self).drawn() == old(self).drawn() + 1,
            r == word_index(rng_word(old(self).seed(), old(self).drawn()), n as int),
            r < n,
    {
        let w = next_word(self);
        (w % (n as u64)) as usize
    }
}

} // verus!
