//! The one injectable random-number source.
//!
//! Every probabilistic choice in the library (world generation, job
//! transitions, facing flips) draws from an `Rng`, a deterministic xorshift
//! generator: the same seed always yields the same sequence, so a test can
//! supply a fixed seed and assert exact outcomes. The successor of each
//! state is the pure function `next_state`, so contracts can name every
//! draw a call will make.

use vstd::prelude::*;

verus! {

/// The xorshift successor of a generator state.
pub open spec fn next_state(s: u64) -> u64 {
    let a = s ^ (s << 13);
    let b = a ^ (a >> 7);
    b ^ (b << 17)
}

/// The state a generator starts from: the seed itself, except that the
/// all-zero seed (a fixed point of xorshift) is replaced by a golden-ratio
/// constant.
pub open spec fn seed_state(seed: u64) -> u64 {
    if seed == 0 {
        0x9E3779B97F4A7C15u64
    } else {
        seed
    }
}

/// The value `gen_range(lo, hi)` returns when drawn from state `s`.
pub open spec fn range_value(s: u64, lo: int, hi: int) -> int {
    lo + (next_state(s) as int) % (hi - lo)
}

/// Whether a `one_in(n)` roll drawn from state `s` hits.
pub open spec fn one_in_hit(s: u64, n: u64) -> bool {
    next_state(s) % n == 0
}

/// A deterministic xorshift random-number generator.
pub struct Rng {
    state: u64,
}

impl View for Rng {
    type V = u64;

    closed spec fn view(&self) -> u64 {
        self.state
    }
}

impl Rng {
    pub fn new(seed: u64) -> (r: Rng)
        ensures
            r@ == seed_state(seed),
    {
        if seed == 0 {
            Rng { state: 0x9E3779B97F4A7C15u64 }
        } else {
            Rng { state: seed }
        }
    }

    fn next_u64(&mut self) -> (r: u64)
        ensures
            final(self)@ == next_state(old(self)@),
            r == next_state(old(self)@),
    {
        let mut s = self.state;
        s = s ^ (s << 13u64);
        s = s ^ (s >> 7u64);
        s = s ^ (s << 17u64);
        self.state = s;
        s
    }

    /// A value in `[lo, hi)`, uniform up to the bias of one modulo.
    pub fn gen_range(&mut self, lo: u64, hi: u64) -> (r: u64)
        requires
            lo < hi,
        ensures
            final(self)@ == next_state(old(self)@),
            r == range_value(old(self)@, lo as int, hi as int),
            lo <= r < hi,
    {
        let d = self.next_u64();
        lo + d % (hi - lo)
    }

    /// A roll that hits with chance one in `n`.
    pub fn one_in(&mut self, n: u64) -> (r: bool)
        requires
            n >= 1,
        ensures
            final(self)@ == next_state(old(self)@),
            r == one_in_hit(old(self)@, n),
    {
        let d = self.next_u64();
        d % n == 0
    }
}

} // verus!
