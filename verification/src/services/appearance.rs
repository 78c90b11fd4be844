//! The seed of an agent's looks: a hash of its id, and the generator that is
//! started from it. What is drawn from the generator is up to the caller.

use vstd::prelude::*;
use vstd::string::*;

verus! {

/// The seed for a text with the given bytes: starting from zero, each byte is
/// added to thirty-one times what came before, in arithmetic modulo 2^32.
pub open spec fn seed_of(bytes: Seq<u8>) -> u32
    decreases bytes.len(),
{
    if bytes.len() == 0 {
        0
    } else {
        seed_of(bytes.drop_last()).wrapping_mul(31).wrapping_add(bytes.last() as u32)
    }
}

/// Hashes an agent id to the seed of its looks.
pub fn hash_seed(agent_id: &str) -> (r: u32)
    ensures
        r == seed_of(agent_id.spec_bytes()),
{
    let bytes = agent_id.as_bytes();
    let mut h: u32 = 0;
    let mut i: usize = 0;
    while i < bytes.len()
        invariant
            i <= bytes@.len(),
            h == seed_of(bytes@.take(i as int)),
        decreases bytes@.len() - i,
    {
        proof {
            assert(bytes@.take(i + 1).drop_last() =~= bytes@.take(i as int));
        }
        h = h.wrapping_mul(31).wrapping_add(bytes[i] as u32);
        i = i + 1;
    }
    assert(bytes@.take(bytes@.len() as int) =~= bytes@);
    h
}

/// The state that follows `state`.
pub open spec fn advance(state: u32) -> u32 {
    state.wrapping_add(0x6D2B79F5)
}

/// The number that the generator gives in state `s`.
pub open spec fn output_of(s: u32) -> u32 {
    let a = s ^ (s >> 15);
    let b = a.wrapping_mul(1 | s);
    let c = (b.wrapping_add(b ^ (b >> 7)).wrapping_mul(61 | b)) ^ b;
    c ^ (c >> 14)
}

/// The index below `count` that the number `x` of 2^32 selects: the whole part
/// of `count` times `x` over 2^32.
pub open spec fn index_of(x: u32, count: usize) -> int {
    (x as int * count as int) / 0x1_0000_0000
}

/// A small generator of pseudo-random numbers. The numbers it gives depend on
/// its seed alone.
pub struct Mulberry32 {
    state: u32,
}

impl View for Mulberry32 {
    type V = u32;

    closed spec fn view(&self) -> u32 {
        self.state
    }
}

impl Mulberry32 {
    /// The generator with the given seed.
    pub fn new(seed: u32) -> (r: Self)
        ensures
            r@ == seed,
    {
        Mulberry32 { state: seed }
    }

    /// The next number.
    pub fn next_u32(&mut self) -> (r: u32)
        ensures
            final(self)@ == advance(old(self)@),
            r == output_of(advance(old(self)@)),
    {
        self.state = self.state.wrapping_add(0x6D2B79F5);
        let s = self.state;
        let a = s ^ (s >> 15);
        let b = a.wrapping_mul(1 | s);
        let c = (b.wrapping_add(b ^ (b >> 7)).wrapping_mul(61 | b)) ^ b;
        c ^ (c >> 14)
    }

    /// The next index below `count`; zero if `count` is zero.
    pub fn next_index(&mut self, count: usize) -> (r: usize)
        ensures
            final(self)@ == advance(old(self)@),
            r == index_of(output_of(advance(old(self)@)), count),
            count > 0 ==> r < count,
    {
        let x = self.next_u32();
        assert(0 <= x as int * count as int <= 0xffff_ffff * 0xffff_ffff_ffff_ffff)
            by (nonlinear_arith)
            requires
                0 <= x <= 0xffff_ffff,
                0 <= count <= 0xffff_ffff_ffff_ffff,
        ;
        let product: u128 = (x as u128) * (count as u128);
        let scaled: u128 = product / 0x1_0000_0000;
        assert(scaled <= count) by (nonlinear_arith)
            requires
                scaled == (x as int * count as int) / 0x1_0000_0000,
                0 <= x < 0x1_0000_0000,
                0 <= count,
        ;
        assert(count > 0 ==> scaled < count) by (nonlinear_arith)
            requires
                scaled == (x as int * count as int) / 0x1_0000_0000,
                0 <= x < 0x1_0000_0000,
                0 <= count,
        ;
        scaled as usize
    }
}

} // verus!
