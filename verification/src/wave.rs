//! Waveform generators: pure functions of (frequency, sample index, sample
//! rate) to an instantaneous amplitude.
//!
//! Amplitudes are integers in millionths of full scale (`AMP_ONE` is 1.0).
//! A waveform's phase at sample `n` is the fractional part of
//! `frequency * n / rate` cycles, mapped onto `PHASE_ONE` steps per cycle.
//! The sine shape is the classic Bhaskara rational approximation of the
//! half-wave, mirrored for the second half; it is exact at the zero
//! crossings and the peaks and within a fraction of a percent elsewhere.
//!
//! Three generators are built from it: a plain sine, a nine-partial "organ"
//! with power-of-two harmonic multiples and geometrically decaying weights,
//! and (in the neighbouring partial-table module) a dense non-harmonic
//! partial sum.

use vstd::prelude::*;
use crate::pitch::{pow2, lemma_pow2_values, MAX_NOTE_FREQ_MILLIHZ};

verus! {

/// Full scale amplitude: 1.0 in millionths.
pub const AMP_ONE: i64 = 1_000_000;

/// Phase steps per waveform cycle.
pub const PHASE_ONE: u64 = 65536;

/// Highest supported sample rate, in samples per second.
pub const MAX_RATE: u32 = 192_000;

/// Most samples a single tone may hold (ten minutes at the highest rate).
pub const MAX_SAMPLES_PER_TONE: u64 = 115_200_000;

/// Highest frequency any generator evaluates: the ninth organ harmonic
/// (2^9 = 512 times) of the highest note frequency.
pub const MAX_WAVE_FREQ_MILLIHZ: u64 = 4_045_930_496;

/// Phase of a waveform of frequency `freq` (millihertz) at sample `n` of a
/// buffer sampled at `rate`: the fractional part of the elapsed cycle count
/// `freq * n / (1000 * rate)`, scaled to `PHASE_ONE` steps per cycle.
pub open spec fn phase_of(freq: int, n: int, rate: int) -> int {
    ((freq * n) % (1000 * rate)) * 65536 / (1000 * rate)
}

/// Bhaskara's rational approximation of `AMP_ONE * sin(pi * x / 32768)` for
/// a half cycle `0 <= x <= 32768`.
pub open spec fn half_sine_milli(x: int) -> int {
    let u = x * (32768 - x);
    16 * u * 1_000_000 / (5368709120 - 4 * u)
}

/// Sine amplitude in millionths of full scale at phase `p` (one cycle is
/// 65536 phase steps): the positive half wave mirrored and negated for the
/// second half.
pub open spec fn sine_milli(p: int) -> int {
    if p < 32768 {
        half_sine_milli(p)
    } else {
        -half_sine_milli(p - 32768)
    }
}

/// Sine waveform amplitude at sample `n`: `sin(2 pi * freq * t)` with
/// `t = n / rate`, in millionths of full scale.
pub open spec fn sine_sample_spec(freq: int, n: int, rate: int) -> int {
    sine_milli(phase_of(freq, n, rate))
}

/// `a` scaled by the non-negative ratio `b / d`, rounding the magnitude
/// toward zero.
pub open spec fn scale_amp_spec(a: int, b: int, d: int) -> int {
    if a >= 0 {
        a * b / d
    } else {
        -((-a) * b / d)
    }
}

/// Weight of the organ's k-th partial in millionths: the fundamental-rank
/// term has unit weight, the rest decay by 1/k and by 1/1.3^k.
pub open spec fn organ_weight(k: int) -> int {
    if k == 1 {
        1_000_000
    } else if k == 2 {
        295858
    } else if k == 3 {
        151722
    } else if k == 4 {
        87532
    } else if k == 5 {
        53866
    } else if k == 6 {
        34529
    } else if k == 7 {
        22767
    } else if k == 8 {
        15324
    } else if k == 9 {
        10478
    } else {
        0
    }
}

/// One organ partial: the sine at 2^k times the base frequency, scaled by
/// the k-th weight.
pub open spec fn organ_partial_spec(freq: int, n: int, rate: int, k: int) -> int {
    scale_amp_spec(sine_milli(phase_of(pow2(k) * freq, n, rate)), organ_weight(k), 1_000_000)
}

/// Sum of the first `k` organ partials.
pub open spec fn organ_sum_spec(freq: int, n: int, rate: int, k: int) -> int
    decreases k,
{
    if k <= 0 {
        0
    } else {
        organ_sum_spec(freq, n, rate, k - 1) + organ_partial_spec(freq, n, rate, k)
    }
}

/// Organ waveform amplitude at sample `n`: nine weighted partials at
/// power-of-two multiples of the base frequency.
pub open spec fn organ_sample_spec(freq: int, n: int, rate: int) -> int {
    organ_sum_spec(freq, n, rate, 9)
}

/// Phase of a waveform of frequency `freq` at sample `n`.
pub fn wave_phase(freq: u64, n: u64, rate: u32) -> (p: u64)
    requires
        1 <= rate <= MAX_RATE,
        freq <= MAX_WAVE_FREQ_MILLIHZ,
        n < MAX_SAMPLES_PER_TONE,
    ensures
        p == phase_of(freq as int, n as int, rate as int),
        p < 65536,
{
    proof {
        vstd::arithmetic::mul::lemma_mul_upper_bound(
            freq as int,
            MAX_WAVE_FREQ_MILLIHZ as int,
            n as int,
            MAX_SAMPLES_PER_TONE as int - 1,
        );
    }
    let den: u64 = 1000 * (rate as u64);
    let m: u64 = (freq * n) % den;
    proof {
        vstd::arithmetic::div_mod::lemma_mod_division_less_than_divisor(
            freq as int * n as int,
            den as int,
        );
        vstd::arithmetic::div_mod::lemma_multiply_divide_lt(
            m as int * 65536,
            den as int,
            65536,
        );
        vstd::arithmetic::mul::lemma_mul_strict_inequality(m as int, den as int, 65536);
    }
    (m * 65536) / den
}

/// Bhaskara half-wave: `AMP_ONE * sin(pi * x / 32768)`, exact at the ends
/// and the peak.
fn half_sine(x: u64) -> (r: i64)
    requires
        x <= 32768,
    ensures
        r == half_sine_milli(x as int),
        0 <= r <= AMP_ONE,
{
    proof {
        assert((x as int) * (32768 - x as int) <= 268435456) by (nonlinear_arith)
            requires 0 <= x as int <= 32768;
        assert((x as int) * (32768 - x as int) >= 0) by (nonlinear_arith)
            requires 0 <= x as int <= 32768;
    }
    let u: u64 = x * (32768 - x);
    let num: u64 = 16 * u * 1_000_000;
    let den: u64 = 5368709120 - 4 * u;
    proof {
        // num <= AMP_ONE * den, so the quotient is at most AMP_ONE.
        assert(num <= 1_000_000 * den as int);
        vstd::arithmetic::div_mod::lemma_div_multiples_vanish(1_000_000, den as int);
        vstd::arithmetic::mul::lemma_mul_is_commutative(1_000_000, den as int);
        vstd::arithmetic::div_mod::lemma_div_is_ordered(
            num as int,
            1_000_000 * den as int,
            den as int,
        );
        vstd::arithmetic::div_mod::lemma_div_pos_is_pos(num as int, den as int);
    }
    (num / den) as i64
}

/// Sine amplitude at phase `p`, in millionths of full scale.
pub fn sine_amp(p: u64) -> (r: i64)
    requires
        p < 65536,
    ensures
        r == sine_milli(p as int),
        -AMP_ONE <= r <= AMP_ONE,
{
    if p < 32768 {
        half_sine(p)
    } else {
        let h = half_sine(p - 32768);
        -h
    }
}

/// Sine waveform sample: `sin(2 pi * freq * t)` at `t = n / rate`.
pub fn sine_sample(freq: u64, n: u64, rate: u32) -> (r: i64)
    requires
        1 <= rate <= MAX_RATE,
        freq <= MAX_WAVE_FREQ_MILLIHZ,
        n < MAX_SAMPLES_PER_TONE,
    ensures
        r == sine_sample_spec(freq as int, n as int, rate as int),
        -AMP_ONE <= r <= AMP_ONE,
{
    let p = wave_phase(freq, n, rate);
    sine_amp(p)
}

/// `a` scaled by `b / d`, magnitude rounded toward zero.  The scale never
/// exceeds one, so the result's magnitude never exceeds `a`'s.
pub fn scale_amp(a: i64, b: i64, d: u64) -> (r: i64)
    requires
        -50_000_000 <= a <= 50_000_000,
        0 <= b <= 1_000_000,
        d == 1_000_000 || d == 2_000_000,
    ensures
        r == scale_amp_spec(a as int, b as int, d as int),
        a >= 0 ==> 0 <= r <= a,
        a < 0 ==> a <= r <= 0,
{
    let mag: u64 = if a >= 0 {
        a as u64
    } else {
        (-a) as u64
    };
    proof {
        vstd::arithmetic::mul::lemma_mul_upper_bound(mag as int, 50_000_000, b as int, 1_000_000);
    }
    let q: u64 = (mag * (b as u64)) / d;
    proof {
        vstd::arithmetic::mul::lemma_mul_inequality(b as int, d as int, mag as int);
        vstd::arithmetic::mul::lemma_mul_is_commutative(mag as int, b as int);
        vstd::arithmetic::mul::lemma_mul_is_commutative(mag as int, d as int);
        vstd::arithmetic::div_mod::lemma_div_multiples_vanish(mag as int, d as int);
        vstd::arithmetic::div_mod::lemma_div_is_ordered(
            mag as int * b as int,
            mag as int * d as int,
            d as int,
        );
        vstd::arithmetic::div_mod::lemma_div_pos_is_pos(mag as int * b as int, d as int);
    }
    if a >= 0 {
        q as i64
    } else {
        -(q as i64)
    }
}

/// Organ waveform sample: nine sine partials at power-of-two multiples of
/// `freq`, with geometrically decaying weights.
pub fn organ_sample(freq: u64, n: u64, rate: u32) -> (r: i64)
    requires
        1 <= rate <= MAX_RATE,
        freq <= MAX_NOTE_FREQ_MILLIHZ,
        n < MAX_SAMPLES_PER_TONE,
    ensures
        r == organ_sample_spec(freq as int, n as int, rate as int),
        -9_000_000 <= r <= 9_000_000,
{
    let mut sum: i64 = 0;
    let mut mult: u64 = 1;
    let mut k: u32 = 0;
    while k < 9
        invariant
            k <= 9,
            1 <= rate <= MAX_RATE,
            freq <= MAX_NOTE_FREQ_MILLIHZ,
            n < MAX_SAMPLES_PER_TONE,
            mult == pow2(k as int),
            sum == organ_sum_spec(freq as int, n as int, rate as int, k as int),
            -1_000_000 * k <= sum <= 1_000_000 * k,
        decreases 9 - k,
    {
        proof {
            lemma_pow2_values();
            crate::pitch::lemma_pow2_mono(k as int + 1, 9);
        }
        mult = mult * 2;
        k = k + 1;
        proof {
            vstd::arithmetic::mul::lemma_mul_upper_bound(
                mult as int,
                512,
                freq as int,
                MAX_NOTE_FREQ_MILLIHZ as int,
            );
        }
        let ef: u64 = mult * freq;
        let s: i64 = sine_sample(ef, n, rate);
        let w: i64 = if k == 1 {
            1_000_000
        } else if k == 2 {
            295858
        } else if k == 3 {
            151722
        } else if k == 4 {
            87532
        } else if k == 5 {
            53866
        } else if k == 6 {
            34529
        } else if k == 7 {
            22767
        } else if k == 8 {
            15324
        } else {
            10478
        };
        assert(w == organ_weight(k as int));
        let term: i64 = scale_amp(s, w, 1_000_000);
        sum = sum + term;
    }
    sum
}

} // verus!
