//! Deterministic xorshift pseudo-random generator used by every seeded
//! decision of the game (map layout, shuffles, enemy picks).
use vstd::prelude::*;

verus! {

/// Seed used in place of zero: a zero state would make xorshift emit zeros forever.
pub const DEFAULT_RNG_SEED: u64 = 0x9E37_79B9_7F4A_7C15;

/// One xorshift64 (13, 7, 17) step on the raw state.
pub open spec fn xorshift_step(x: u64) -> u64 {
    let a = x ^ (x << 13u64);
    let b = a ^ (a >> 7u64);
    b ^ (b << 17u64)
}

/// The state a generator starts from for a given seed.
/// A generator that does not start at zero never reaches zero: each xorshift step is a
/// bijection of the 64-bit states that fixes zero.
pub proof fn xorshift_step_never_zero(x: u64)
    requires
        x != 0,
    ensures
        xorshift_step(x) != 0,
{
    let a = x ^ (x << 13u64);
    let b = a ^ (a >> 7u64);
    assert(x != 0 ==> a != 0) by (bit_vector)
        requires
            a == x ^ (x << 13u64);
    assert(a != 0 ==> b != 0) by (bit_vector)
        requires
            b == a ^ (a >> 7u64);
    assert(b != 0 ==> b ^ (b << 17u64) != 0) by (bit_vector);
}

pub open spec fn seed_state(seed: u64) -> u64 {
    if seed == 0 { DEFAULT_RNG_SEED } else { seed }
}

/// The index that `next_index` derives from a freshly produced 64-bit value.
pub open spec fn index_from_value(value: u64, upper_bound: usize) -> usize {
    if upper_bound <= 1 { 0 } else { (value % (upper_bound as u64)) as usize }
}

#[derive(Clone, Copy, Debug, PartialEq, Eq, Structural)]
pub struct XorShift64 {
    pub state: u64,
}

impl XorShift64 {
    /// A generator seeded with `seed` (zero is replaced by a fixed nonzero seed).
    pub fn new(seed: u64) -> (rng: Self)
        ensures
            rng.state == seed_state(seed),
            rng.state != 0,
    {
        let state = if seed == 0 { DEFAULT_RNG_SEED } else { seed };
        Self { state }
    }

    /// Advances the state by one xorshift step and returns the new state.
    pub fn next_u64(&mut self) -> (value: u64)
        ensures
            value == xorshift_step(old(self).state),
            final(self).state == value,
    {
        let mut x = self.state;
        x = x ^ (x << 13u64);
        x = x ^ (x >> 7u64);
        x = x ^ (x << 17u64);
        self.state = x;
        x
    }

    /// A value in `0..upper_bound` (0 when `upper_bound <= 1`, without advancing).
    pub fn next_index(&mut self, upper_bound: usize) -> (index: usize)
        ensures
            upper_bound <= 1 ==> index == 0 && final(self).state == old(self).state,
            upper_bound > 1 ==> final(self).state == xorshift_step(old(self).state)
                && index == index_from_value(final(self).state, upper_bound)
                && index < upper_bound,
    {
        if upper_bound <= 1 {
            return 0;
        }
        let value = self.next_u64();
        let index = (value % (upper_bound as u64)) as usize;
        index
    }
}

} // verus!
