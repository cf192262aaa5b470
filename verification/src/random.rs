//! Random number generation.
//!
//! The generator implements `rand_core::RngCore`, so every facility of the
//! `rand` crate is available on it.

use rand::Rng;
use rand_core::RngCore;
use vstd::prelude::*;

verus! {

/// The multiplier used when nothing else is asked for.
pub const DEFAULT_MULTIPLIER: u32 = 0xf13283ad;

/// The state that follows `state` in a generator with multiplier `multiplier`.
pub open spec fn advance(state: u64, multiplier: u32) -> u64 {
    let product = state.wrapping_mul(multiplier as u64);
    product ^ (product >> 22)
}

/// The 32-bit value a generator in state `state` puts out on its next draw.
pub open spec fn output(state: u64, multiplier: u32) -> u32 {
    (advance(state, multiplier) >> ((22 + (state >> 61)) as u64)) as u32
}

/// The state a generator seeded with `seed` starts in. It is always odd.
pub open spec fn seeded(seed: u64) -> u64 {
    seed.wrapping_mul(2).wrapping_add(1)
}

/// The 64-bit value a generator in state `state` puts out: two 32-bit draws,
/// the first one in the low half.
pub open spec fn output_wide(state: u64, multiplier: u32) -> u64 {
    ((output(advance(state, multiplier), multiplier) as u64) << 32) | (output(state, multiplier)
        as u64)
}

/// The bytes a generator in state `state` fills a buffer of `count` bytes
/// with, and the state it is in afterwards.
///
/// The buffer is filled from 64-bit draws, eight bytes each with the lowest
/// first. The last draw is cut off where the buffer ends, and it is a 32-bit
/// draw if no more than four bytes are left for it.
pub open spec fn filled(state: u64, multiplier: u32, count: nat) -> (Seq<u8>, u64)
    decreases count,
{
    if count == 0 {
        (Seq::empty(), state)
    } else if count > 4 {
        let taken = if count >= 8 {
            8nat
        } else {
            count
        };
        let rest = filled(
            advance(advance(state, multiplier), multiplier),
            multiplier,
            (count - taken) as nat,
        );
        (
            vstd::bytes::spec_u64_to_le_bytes(output_wide(state, multiplier)).take(taken as int)
                + rest.0,
            rest.1,
        )
    } else {
        (
            vstd::bytes::spec_u32_to_le_bytes(output(state, multiplier)).take(count as int),
            advance(state, multiplier),
        )
    }
}

/// A generator starts in an odd state, whatever the seed.
pub proof fn lemma_seeded_is_odd(seed: u64)
    ensures
        seeded(seed) % 2 == 1,
{
    let doubled = seed.wrapping_mul(2);
    assert(doubled % 2 == 0) by (nonlinear_arith)
        requires
            doubled == ((seed as nat * 2) % 0x1_0000_0000_0000_0000) as u64,
    ;
}

/// The byte that `rand` derives from one 32-bit draw: its low eight bits.
pub open spec fn output_byte(state: u64, multiplier: u32) -> u8 {
    output(state, multiplier) as u8
}

/// The error type of `rand_core`'s fallible byte filling, `rand_core::Error`.
/// Nothing is known of its values, and the generator never produces one.
#[verifier::external_type_specification]
#[verifier::external_body]
pub struct ExRandError(rand_core::Error);

/// A permuted congruential generator built on a multiplicative congruential
/// generator.
///
/// The state has 64 bits and the multiplier only 32, which keeps the
/// multiplication cheap on 32-bit machines.
#[derive(Debug)]
pub struct Pcg32Fast<const MULTIPLIER: u32> {
    /// The generator's current state.
    state: u64,
}

impl<const MULTIPLIER: u32> Pcg32Fast<MULTIPLIER> {
    /// The generator's current state.
    pub closed spec fn view(&self) -> u64 {
        self.state
    }

    /// Creates a new generator from the given seed.
    pub fn new(seed: u64) -> (pcg: Self)
        ensures
            pcg@ == seeded(seed),
    {
        Self {
            // The state must be odd.
            state: seed.wrapping_mul(2).wrapping_add(1),
        }
    }
}

impl<const MULTIPLIER: u32> RngCore for Pcg32Fast<MULTIPLIER> {
    /// One draw: the state is multiplied and folded, and the bits put out
    /// are chosen by the top three bits of the state before.
    fn next_u32(&mut self) -> (value: u32)
        ensures
            value == output(old(self)@, MULTIPLIER),
            final(self)@ == advance(old(self)@, MULTIPLIER),
    {
        let before: u64 = self.state;
        let count: u64 = before >> 61;
        assert(count <= 7) by (bit_vector)
            requires
                count == before >> 61,
        ;
        self.state = self.state.wrapping_mul(MULTIPLIER as u64);
        self.state ^= self.state >> 22;
        #[verifier::truncate]
        ((self.state >> (22 + count)) as u32)
    }

    /// Calls `rand_core::impls::next_u64_via_u32`, which makes two 32-bit
    /// draws on the generator and puts the first one in the low half.
    ///
    /// Nothing here proves that; it is what that function is written to do.
    #[verifier::external_body]
    fn next_u64(&mut self) -> (value: u64)
        ensures
            value == output_wide(old(self)@, MULTIPLIER),
            final(self)@ == advance(advance(old(self)@, MULTIPLIER), MULTIPLIER),
    {
        rand_core::impls::next_u64_via_u32(self)
    }

    /// Calls `rand_core::impls::fill_bytes_via_next`, which fills `dest` from
    /// 64-bit draws on the generator, eight bytes each with the lowest first,
    /// and ends on a 32-bit draw if no more than four bytes are left.
    ///
    /// Nothing here proves that; it is what that function is written to do.
    #[verifier::external_body]
    fn fill_bytes(&mut self, dest: &mut [u8])
        ensures
            final(dest)@ == filled(old(self)@, MULTIPLIER, old(dest)@.len()).0,
            final(self)@ == filled(old(self)@, MULTIPLIER, old(dest)@.len()).1,
    {
        rand_core::impls::fill_bytes_via_next(self, dest);
    }

    /// Filling bytes never fails.
    fn try_fill_bytes(&mut self, dest: &mut [u8]) -> (outcome: Result<(), rand_core::Error>)
        ensures
            outcome is Ok,
            final(dest)@ == filled(old(self)@, MULTIPLIER, old(dest)@.len()).0,
            final(self)@ == filled(old(self)@, MULTIPLIER, old(dest)@.len()).1,
    {
        self.fill_bytes(dest);
        Ok(())
    }
}

/// Draws one byte by calling `rand::Rng::gen::<u8>` on the generator.
///
/// For `u8`, `rand` makes one 32-bit draw on the generator and keeps its low
/// eight bits. Nothing here proves that; it is what `rand` is written to do.
#[verifier::external_body]
pub(crate) fn gen_u8<const MULTIPLIER: u32>(pcg: &mut Pcg32Fast<MULTIPLIER>) -> (byte: u8)
    ensures
        byte == output_byte(old(pcg)@, MULTIPLIER),
        final(pcg)@ == advance(old(pcg)@, MULTIPLIER),
{
    pcg.gen::<u8>()
}

} // verus!
