//! Hand-rolled xorshift64 PRNG (Marsaglia's 13/7/17 variant): the game's
//! only randomness source.
use vstd::prelude::*;

verus! {

/// The seed a zero seed is remapped to: xorshift has a fixed point at zero.
pub const ZERO_SEED_REMAP: u64 = 0x9E37_79B9_7F4A_7C15;

/// One xorshift64 (13/7/17) step.
pub open spec fn xorshift(x: u64) -> u64 {
    let a = x ^ (x << 13u64);
    let b = a ^ (a >> 7u64);
    b ^ (b << 17u64)
}

/// The state a seed starts the generator in.
pub open spec fn seeded(seed: u64) -> u64 {
    if seed == 0 { ZERO_SEED_REMAP } else { seed }
}

/// A xorshift64 generator.
pub struct XorShift64 {
    state: u64,
}

impl XorShift64 {
    /// The generator's current state.
    pub closed spec fn state(&self) -> u64 {
        self.state
    }

    /// A live generator never sits at the zero fixed point.
    pub open spec fn wf(&self) -> bool {
        self.state() != 0
    }

    pub fn new(seed: u64) -> (r: Self)
        ensures
            r.state() == seeded(seed),
            r.wf(),
    {
        Self { state: if seed == 0 { ZERO_SEED_REMAP } else { seed } }
    }

    pub fn next_u64(&mut self) -> (r: u64)
        requires
            old(self).wf(),
        ensures
            r == xorshift(old(self).state()),
            final(self).state() == r,
            final(self).wf(),
    {
        let mut x = self.state;
        x ^= x << 13u64;
        x ^= x >> 7u64;
        x ^= x << 17u64;
        proof {
            lemma_xorshift_nonzero(self.state);
        }
        self.state = x;
        x
    }
}

/// Xorshift maps a nonzero state to a nonzero state: each of its three
/// xor-shift steps is invertible.
pub proof fn lemma_xorshift_nonzero(x: u64)
    requires
        x != 0,
    ensures
        xorshift(x) != 0,
{
    let a = x ^ (x << 13u64);
    let b = a ^ (a >> 7u64);
    assert(x != 0 ==> (x ^ (x << 13u64)) != 0) by (bit_vector);
    assert(a != 0 ==> (a ^ (a >> 7u64)) != 0) by (bit_vector);
    assert(b != 0 ==> (b ^ (b << 17u64)) != 0) by (bit_vector);
}

} // verus!
