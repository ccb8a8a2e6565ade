//! Sources of candidate vertices for the rejection-sampling loop, and
//! sinks for its per-iteration progress reports.
//!
//! The core loop is written against the [`VertexPicker`] trait, so the
//! random source is an explicitly passed handle: [`ThreadPicker`] draws
//! from the process's random generator, while [`SeededPicker`] is a
//! small deterministic generator for reproducible runs.

use vstd::prelude::*;

verus! {

/// A source of candidate vertex indices for rejection sampling.
pub trait VertexPicker {
    /// Draws the index of a candidate vertex, in `[0, bound)`.
    fn pick(&mut self, bound: usize) -> (r: usize)
        requires
            bound >= 1,
        ensures
            r < bound,
    ;
}

/// A sink for the once-per-iteration progress report of the core loop.
pub trait ProgressSink {
    /// Called once per iteration with the current iteration index.
    fn report(&mut self, iteration: u64);
}

/// A progress sink that discards every report.
pub struct SilentProgress {}

impl ProgressSink for SilentProgress {
    fn report(&mut self, _iteration: u64) {
    }
}

#[verifier::external_type_specification]
#[verifier::external_body]
pub struct ExThreadRng(rand::rngs::ThreadRng);

/// Relies on rand::rng: a handle to the thread-local random generator.
#[verifier::external_body]
fn new_thread_rng() -> rand::rngs::ThreadRng {
    rand::rng()
}

/// Relies on rand's Rng::random_range: a draw from the range `0..bound`,
/// which is non-empty here, so the call returns a value below `bound`
/// and does not panic.
#[verifier::external_body]
fn random_below(rng: &mut rand::rngs::ThreadRng, bound: usize) -> (r: usize)
    requires
        bound >= 1,
    ensures
        r < bound,
{
    rand::Rng::random_range(rng, 0..bound)
}

/// A picker that draws uniformly from the process's thread-local random
/// generator.
pub struct ThreadPicker {
    rng: rand::rngs::ThreadRng,
}

impl ThreadPicker {
    /// A picker over the thread-local random generator.
    pub fn new() -> ThreadPicker {
        ThreadPicker { rng: new_thread_rng() }
    }
}

impl VertexPicker for ThreadPicker {
    fn pick(&mut self, bound: usize) -> (r: usize) {
        random_below(&mut self.rng, bound)
    }
}

/// The state transition of the deterministic picker: one step of a
/// linear congruential generator on 64 bits.
pub open spec fn next_state_spec(state: int) -> int {
    (state * 6364136223846793005 + 1442695040888963407) % 0x10000000000000000
}

/// The index drawn from a picker state: the upper bits of the state,
/// reduced modulo the bound.
pub open spec fn picked_spec(state: int, bound: int) -> int {
    (state % 0x10000000000000000) / 0x200000000 % bound
}

/// A deterministic picker: a 64-bit linear congruential generator whose
/// whole run is a function of its seed, for reproducible images.
pub struct SeededPicker {
    pub state: u64,
}

impl SeededPicker {
    /// A deterministic picker starting from the given seed.
    pub fn new(seed: u64) -> (r: SeededPicker)
        ensures
            r.state == seed,
    {
        SeededPicker { state: seed }
    }
}

impl VertexPicker for SeededPicker {
    fn pick(&mut self, bound: usize) -> (r: usize)
        ensures
            final(self).state == next_state_spec(old(self).state as int),
            r == picked_spec(final(self).state as int, bound as int),
    {
        let wide: u128 = (self.state as u128) * 6364136223846793005 + 1442695040888963407;
        self.state = (wide % 0x10000000000000000) as u64;
        let upper: u64 = self.state >> 33;
        let drawn: u64 = upper % (bound as u64);
        proof {
            let st = self.state;
            assert(st >> 33 == st / 0x200000000) by (bit_vector);
        }
        drawn as usize
    }
}

} // verus!
