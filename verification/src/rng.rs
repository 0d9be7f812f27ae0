//! The world's deterministic random source: an xorshift64* generator.
use vstd::prelude::*;

verus! {

/// One xorshift step of the generator's state.
pub open spec fn xorshift(x: u64) -> u64 {
    let a = x ^ (x >> 12u64);
    let b = a ^ (a << 25u64);
    b ^ (b >> 27u64)
}

/// The multiplier that scrambles the state into an output.
pub open spec fn scramble_factor() -> nat {
    0x2545F4914F6CDD1Dnat
}

/// The output drawn from a (new) state.
pub open spec fn scrambled(x: u64) -> u64 {
    ((x as nat * scramble_factor()) % 0x1_0000_0000_0000_0000nat) as u64
}

/// A deterministic random source. Its state is never zero, the one state
/// from which an xorshift generator could not move.
#[derive(Clone, Copy, Debug)]
pub struct SimpleRng {
    state: u64,
}

/// A nonzero state stays nonzero under an xorshift step.
pub proof fn lemma_xorshift_nonzero(x: u64)
    requires
        x != 0,
    ensures
        xorshift(x) != 0,
{
    let a = x ^ (x >> 12u64);
    let b = a ^ (a << 25u64);
    assert(x != 0 ==> (x ^ (x >> 12u64)) != 0) by (bit_vector);
    assert(a != 0 ==> (a ^ (a << 25u64)) != 0) by (bit_vector);
    assert(b != 0 ==> (b ^ (b >> 27u64)) != 0) by (bit_vector);
}

impl SimpleRng {
    #[verifier::type_invariant]
    spec fn nonzero(self) -> bool {
        self.state != 0
    }

    /// The current state.
    pub closed spec fn state(self) -> u64 {
        self.state
    }

    /// A generator seeded with `seed`; a zero seed is taken as one.
    pub fn new(seed: u64) -> (r: Self)
        ensures
            r.state() == (if seed == 0 { 1u64 } else { seed }),
            r.state() != 0,
    {
        let state = if seed == 0 { 1 } else { seed };
        SimpleRng { state }
    }

    /// Advances the state one xorshift step and returns it scrambled.
    pub fn next_u64(&mut self) -> (r: u64)
        ensures
            final(self).state() == xorshift(old(self).state()),
            r == scrambled(final(self).state()),
            old(self).state() != 0,
            final(self).state() != 0,
    {
        proof {
            use_type_invariant(&*self);
            lemma_xorshift_nonzero(self.state);
        }
        let mut x = self.state;
        x = x ^ (x >> 12);
        x = x ^ (x << 25);
        x = x ^ (x >> 27);
        self.state = x;
        x.wrapping_mul(0x2545F4914F6CDD1D)
    }

    /// The top 24 bits of the next output: a uniform draw below 2^24, from
    /// which a fraction in [0, 1] is made.
    pub fn next_bits24(&mut self) -> (r: u32)
        ensures
            final(self).state() == xorshift(old(self).state()),
            r as nat == scrambled(final(self).state()) as nat / 0x100_0000_0000nat,
            r < 0x100_0000,
    {
        let x = self.next_u64();
        let top = x >> 40;
        assert(top == x / 0x100_0000_0000u64 && top < 0x100_0000u64) by (bit_vector)
            requires top == x >> 40u64;
        top as u32
    }

    /// A draw in [min, max_inclusive]; `min` itself when the range is empty
    /// or a single value. The width of the range must fit in an `i32`.
    pub fn range_i32(&mut self, min: i32, max_inclusive: i32) -> (r: i32)
        requires
            max_inclusive <= min || max_inclusive - min <= i32::MAX,
        ensures
            max_inclusive <= min ==> r == min && final(self).state() == old(self).state(),
            max_inclusive > min ==> {
                &&& final(self).state() == xorshift(old(self).state())
                &&& r == min + (scrambled(final(self).state()) as nat % 0x1_0000_0000nat) % ((max_inclusive - min + 1) as nat)
            },
            min <= r,
            max_inclusive > min ==> r <= max_inclusive,
    {
        if max_inclusive <= min {
            return min;
        }
        let span = (max_inclusive - min) as u32 + 1;
        let x = self.next_u64();
        let low = x as u32;
        assert(low as nat == x as nat % 0x1_0000_0000nat) by (bit_vector)
            requires low == x as u32;
        let value = low % span;
        assert(value < span);
        min + value as i32
    }
}

} // verus!
