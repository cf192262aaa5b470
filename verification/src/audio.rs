//! Sound clips as the program stores them: the sample rate, four bytes with
//! the lowest first, and then the samples, one byte each.

use vstd::bytes::{
    lemma_auto_spec_u32_to_from_le_bytes, spec_u32_from_le_bytes, spec_u32_to_le_bytes,
    u32_from_le_bytes, u32_to_le_bytes,
};
use vstd::prelude::*;

verus! {

/// The number of clock cycles in a second.
pub const CLOCK: u32 = 0x0100_0000;

/// The samples as bytes: each sample keeps its eight bits.
pub open spec fn sample_bytes(samples: Seq<i8>) -> Seq<u8> {
    Seq::new(samples.len(), |i: int| samples[i] as u8)
}

/// A clip of the given sample rate and samples, as it is stored.
pub open spec fn encoded(sample_rate: u32, samples: Seq<i8>) -> Seq<u8> {
    spec_u32_to_le_bytes(sample_rate) + sample_bytes(samples)
}

/// The sample rate a stored clip begins with, if it is long enough to hold
/// one.
pub open spec fn spec_sample_rate(bytes: Seq<u8>) -> Option<u32> {
    if bytes.len() < 4 {
        None
    } else {
        Some(spec_u32_from_le_bytes(bytes.subrange(0, 4)))
    }
}

/// The value a timer counts up from to overflow once per sample: as many
/// ticks short of 65536 as there are clock cycles in a sample.
pub open spec fn spec_timer_reload(sample_rate: u32) -> u16 {
    ((65536 - CLOCK / sample_rate) % 65536) as u16
}

/// Stores a clip.
pub fn encode(sample_rate: u32, samples: &[i8]) -> (bytes: Vec<u8>)
    ensures
        bytes@ == encoded(sample_rate, samples@),
{
    let mut bytes = u32_to_le_bytes(sample_rate);
    let ghost header = bytes@;
    let mut i: usize = 0;
    while i < samples.len()
        invariant
            i <= samples.len(),
            header == spec_u32_to_le_bytes(sample_rate),
            bytes@ == header + sample_bytes(samples@.take(i as int)),
        decreases samples.len() - i,
    {
        let sample: i8 = samples[i];
        bytes.push(#[verifier::truncate] (sample as u8));
        proof {
            assert(samples@.take(i + 1) =~= samples@.take(i as int).push(samples@[i as int]));
            assert(sample_bytes(samples@.take(i + 1)) =~= sample_bytes(
                samples@.take(i as int),
            ).push(sample as u8));
            assert(bytes@ =~= header + sample_bytes(samples@.take(i + 1)));
        }
        i += 1;
    }
    assert(samples@.take(samples.len() as int) =~= samples@);
    bytes
}

/// The sample rate a stored clip begins with, if it is long enough to hold
/// one.
pub fn sample_rate(bytes: &[u8]) -> (rate: Option<u32>)
    ensures
        rate == spec_sample_rate(bytes@),
{
    if bytes.len() < 4 {
        None
    } else {
        let header = vstd::slice::slice_subrange(bytes, 0, 4);
        Some(u32_from_le_bytes(header))
    }
}

/// The value a timer counts up from to overflow once per sample.
///
/// The rate must be such that a sample takes no more than 65536 cycles.
#[verifier::when_used_as_spec(spec_timer_reload)]
pub fn timer_reload(sample_rate: u32) -> (reload: u16)
    requires
        sample_rate >= 256,
    ensures
        reload == spec_timer_reload(sample_rate),
{
    let ticks_per_sample = CLOCK / sample_rate;
    assert(ticks_per_sample <= 65536) by (nonlinear_arith)
        requires
            ticks_per_sample == 0x0100_0000u32 / sample_rate,
            sample_rate >= 256,
    ;
    let short: u32 = 65536 - ticks_per_sample;
    if short == 65536 {
        0
    } else {
        short as u16
    }
}

/// A stored clip begins with the sample rate it was stored with.
pub proof fn lemma_sample_rate_of_encoded(sample_rate: u32, samples: Seq<i8>)
    ensures
        spec_sample_rate(encoded(sample_rate, samples)) == Some(sample_rate),
        encoded(sample_rate, samples).len() == 4 + samples.len(),
        encoded(sample_rate, samples).subrange(4, 4 + samples.len() as int) == sample_bytes(samples),
{
    lemma_auto_spec_u32_to_from_le_bytes();
    let bytes = encoded(sample_rate, samples);
    assert(bytes.subrange(0, 4) =~= spec_u32_to_le_bytes(sample_rate));
    assert(bytes.subrange(4, 4 + samples.len() as int) =~= sample_bytes(samples));
}

} // verus!
