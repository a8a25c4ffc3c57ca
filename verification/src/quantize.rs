//! Quantization: a finished buffer narrowed to 16-bit integer samples, for
//! hand-off to a sound-file writer.
//!
//! Amplitudes outside full scale are clamped first; within full scale the
//! magnitude is scaled linearly onto 0..=32767, rounding toward zero.

use vstd::prelude::*;

verus! {

/// Largest 16-bit sample magnitude.
pub const QUANT_MAX: i64 = 32767;

/// `v` clamped to full scale.
pub open spec fn clamp_amp_spec(v: int) -> int {
    if v > 1_000_000 {
        1_000_000
    } else if v < -1_000_000 {
        -1_000_000
    } else {
        v
    }
}

/// The 16-bit value of one sample: clamp, then scale by 32767 over full
/// scale, magnitude rounded toward zero.
pub open spec fn quantize_sample_spec(v: int) -> int {
    let c = clamp_amp_spec(v);
    if c >= 0 {
        c * 32767 / 1_000_000
    } else {
        -((-c) * 32767 / 1_000_000)
    }
}

/// Quantizes one sample to 16 bits.
pub fn quantize_sample(v: i64) -> (q: i16)
    ensures
        q == quantize_sample_spec(v as int),
        -QUANT_MAX <= q <= QUANT_MAX,
{
    let c: i64 = if v > 1_000_000 {
        1_000_000
    } else if v < -1_000_000 {
        -1_000_000
    } else {
        v
    };
    let mag: u64 = if c >= 0 {
        c as u64
    } else {
        (-c) as u64
    };
    proof {
        vstd::arithmetic::mul::lemma_mul_inequality(mag as int, 1_000_000, 32767);
        vstd::arithmetic::div_mod::lemma_div_is_ordered(
            mag as int * 32767,
            1_000_000int * 32767,
            1_000_000,
        );
        vstd::arithmetic::div_mod::lemma_div_pos_is_pos(mag as int * 32767, 1_000_000);
    }
    let q: u64 = (mag * 32767) / 1_000_000;
    if c >= 0 {
        q as i16
    } else {
        -(q as i16)
    }
}

/// Quantizes a whole buffer, sample for sample, in order.
pub fn quantize(samples: &Vec<i64>) -> (out: Vec<i16>)
    ensures
        out@.len() == samples@.len(),
        forall|i: int|
            0 <= i < samples@.len() ==> out@[i] == quantize_sample_spec(samples@[i] as int) as i16,
{
    let mut out: Vec<i16> = Vec::new();
    let mut i: usize = 0;
    while i < samples.len()
        invariant
            i <= samples@.len(),
            out@.len() == i,
            forall|j: int|
                0 <= j < i ==> out@[j] == quantize_sample_spec(samples@[j] as int) as i16,
        decreases samples@.len() - i,
    {
        let q: i16 = quantize_sample(samples[i]);
        out.push(q);
        i = i + 1;
    }
    out
}

} // verus!
