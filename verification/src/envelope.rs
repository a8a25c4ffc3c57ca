//! Envelope shaping: a waveform becomes a finite tone.
//!
//! A tone of `total` samples fades linearly in over its first
//! `fade_permille / 1000` of samples, sustains at full level, and fades
//! linearly out over the same span at the end; the halved output leaves
//! headroom for the partial sums.  A fade of zero (or one so small that it
//! rounds to zero samples) degenerates to sustain-only.  Simple tones skip
//! the envelope entirely and play the halved sine for their full length.

use vstd::prelude::*;
use crate::pitch::MAX_NOTE_FREQ_MILLIHZ;
use crate::wave::{
    organ_sample, organ_sample_spec, scale_amp, scale_amp_spec, sine_sample, sine_sample_spec,
    MAX_RATE, MAX_SAMPLES_PER_TONE,
};
use crate::partials::{complex_sample, complex_sample_spec, partial_table_spec};

verus! {

/// Full envelope gain: 1.0 in millionths.
pub const GAIN_ONE: i64 = 1_000_000;

/// Largest accepted fade fraction, in thousandths; it must stay below one
/// half so that a sustained stretch exists.
pub const MAX_FADE_PERMILLE: u32 = 499;

/// How a tone turns a pitch into a waveform.
#[derive(Clone, Copy, PartialEq, Eq, Structural, Debug)]
pub enum ToneKind {
    /// Plain sine, no envelope.
    Simple,
    /// Organ waveform under the fade envelope.
    Faded,
    /// Partial-table waveform under the fade envelope.
    Complex,
}

/// Number of samples in each fade ramp of a tone of `total` samples.
pub open spec fn fade_samples_spec(fade_permille: int, total: int) -> int {
    fade_permille * total / 1000
}

/// Envelope gain at sample `n` of a tone of `total` samples with ramps of
/// `fs` samples: a linear ramp from zero, a full-level sustain, and a linear
/// ramp back to zero.
pub open spec fn env_gain_spec(n: int, total: int, fs: int) -> int {
    if fs <= 0 {
        1_000_000
    } else if n < fs {
        n * 1_000_000 / fs
    } else if n < total - fs {
        1_000_000
    } else {
        (total - n) * 1_000_000 / fs
    }
}

/// Raw waveform amplitude for a tone kind at sample `n`.
pub open spec fn raw_wave_spec(kind: ToneKind, freq: int, n: int, rate: int) -> int {
    match kind {
        ToneKind::Simple => sine_sample_spec(freq, n, rate),
        ToneKind::Faded => organ_sample_spec(freq, n, rate),
        ToneKind::Complex => complex_sample_spec(freq, n, rate),
    }
}

/// Finished amplitude of sample `n` of a tone: the raw waveform scaled by
/// half the envelope gain (simple tones carry full gain and no envelope).
pub open spec fn tone_sample_spec(
    kind: ToneKind,
    freq: int,
    n: int,
    total: int,
    fade_permille: int,
    rate: int,
) -> int {
    let gain = match kind {
        ToneKind::Simple => 1_000_000,
        _ => env_gain_spec(n, total, fade_samples_spec(fade_permille, total)),
    };
    scale_amp_spec(raw_wave_spec(kind, freq, n, rate), gain, 2_000_000)
}

/// The full sample run of one tone.
pub open spec fn tone_samples_spec(
    kind: ToneKind,
    freq: int,
    total: int,
    fade_permille: int,
    rate: int,
) -> Seq<i64> {
    Seq::new(
        total as nat,
        |n: int| tone_sample_spec(kind, freq, n, total, fade_permille, rate) as i64,
    )
}

/// Ramp length in samples of a tone of `total` samples.
pub fn fade_samples(fade_permille: u32, total: u64) -> (fs: u64)
    requires
        fade_permille <= MAX_FADE_PERMILLE,
        total <= MAX_SAMPLES_PER_TONE,
    ensures
        fs == fade_samples_spec(fade_permille as int, total as int),
        2 * fs <= total,
{
    proof {
        vstd::arithmetic::mul::lemma_mul_inequality(fade_permille as int, 499, total as int);
        vstd::arithmetic::mul::lemma_mul_is_commutative(fade_permille as int, total as int);
        vstd::arithmetic::mul::lemma_mul_is_commutative(499, total as int);
        // 1000 * fs <= 499 * total < 1000 * total, so 2 * fs <= total.
        vstd::arithmetic::div_mod::lemma_fundamental_div_mod(
            fade_permille as int * total as int,
            1000,
        );
        vstd::arithmetic::div_mod::lemma_mod_division_less_than_divisor(
            fade_permille as int * total as int,
            1000,
        );
    }
    ((fade_permille as u64) * total) / 1000
}

/// Envelope gain at sample `n`.
pub fn env_gain(n: u64, total: u64, fs: u64) -> (g: i64)
    requires
        n < total,
        2 * fs <= total,
        total <= MAX_SAMPLES_PER_TONE,
    ensures
        g == env_gain_spec(n as int, total as int, fs as int),
        0 <= g <= GAIN_ONE,
{
    if fs == 0 {
        1_000_000
    } else if n < fs {
        proof {
            vstd::arithmetic::mul::lemma_mul_strict_inequality(n as int, fs as int, 1_000_000);
            vstd::arithmetic::mul::lemma_mul_is_commutative(n as int, 1_000_000);
            vstd::arithmetic::mul::lemma_mul_is_commutative(fs as int, 1_000_000);
            vstd::arithmetic::div_mod::lemma_multiply_divide_lt(
                n as int * 1_000_000,
                fs as int,
                1_000_000,
            );
            vstd::arithmetic::div_mod::lemma_div_pos_is_pos(n as int * 1_000_000, fs as int);
        }
        ((n * 1_000_000) / fs) as i64
    } else if n < total - fs {
        1_000_000
    } else {
        let rem: u64 = total - n;
        proof {
            vstd::arithmetic::mul::lemma_mul_inequality(rem as int, fs as int, 1_000_000);
            vstd::arithmetic::mul::lemma_mul_is_commutative(rem as int, 1_000_000);
            vstd::arithmetic::mul::lemma_mul_is_commutative(fs as int, 1_000_000);
            vstd::arithmetic::div_mod::lemma_multiply_divide_le(
                rem as int * 1_000_000,
                fs as int,
                1_000_000,
            );
            vstd::arithmetic::div_mod::lemma_div_pos_is_pos(rem as int * 1_000_000, fs as int);
        }
        ((rem * 1_000_000) / fs) as i64
    }
}

/// Renders one tone: `total` samples of the kind's waveform at `freq`
/// (millihertz), shaped by the fade envelope.
pub fn render_tone(
    kind: ToneKind,
    freq: u64,
    total: usize,
    fade_permille: u32,
    rate: u32,
    table: &Vec<(i64, i64)>,
) -> (out: Vec<i64>)
    requires
        table@ == partial_table_spec(),
        1 <= rate <= MAX_RATE,
        freq <= MAX_NOTE_FREQ_MILLIHZ,
        total <= MAX_SAMPLES_PER_TONE,
        fade_permille <= MAX_FADE_PERMILLE,
    ensures
        out@ == tone_samples_spec(
            kind,
            freq as int,
            total as int,
            fade_permille as int,
            rate as int,
        ),
        out@.len() == total,
{
    let fs: u64 = fade_samples(fade_permille, total as u64);
    let mut out: Vec<i64> = Vec::new();
    let mut n: usize = 0;
    while n < total
        invariant
            table@ == partial_table_spec(),
            1 <= rate <= MAX_RATE,
            freq <= MAX_NOTE_FREQ_MILLIHZ,
            total <= MAX_SAMPLES_PER_TONE,
            fade_permille <= MAX_FADE_PERMILLE,
            fs == fade_samples_spec(fade_permille as int, total as int),
            2 * fs <= total as u64,
            n <= total,
            out@.len() == n,
            forall|m: int|
                0 <= m < n ==> out@[m] == tone_sample_spec(
                    kind,
                    freq as int,
                    m,
                    total as int,
                    fade_permille as int,
                    rate as int,
                ) as i64,
        decreases total - n,
    {
        let raw: i64 = match kind {
            ToneKind::Simple => sine_sample(freq, n as u64, rate),
            ToneKind::Faded => organ_sample(freq, n as u64, rate),
            ToneKind::Complex => complex_sample(table, freq, n as u64, rate),
        };
        let gain: i64 = match kind {
            ToneKind::Simple => 1_000_000,
            _ => env_gain(n as u64, total as u64, fs),
        };
        let s: i64 = scale_amp(raw, gain, 2_000_000);
        out.push(s);
        n = n + 1;
    }
    proof {
        assert(out@ =~= tone_samples_spec(
            kind,
            freq as int,
            total as int,
            fade_permille as int,
            rate as int,
        ));
    }
    out
}

/// Envelope boundary law: whenever a tone is long enough for its fade ramps
/// to span at least one sample, the envelope starts at zero gain (so the
/// first sample is silent), ends at zero gain, and stands at full gain in
/// the middle, where an enveloped tone's sample is exactly the halved raw
/// waveform.
pub proof fn lemma_envelope_boundary(
    kind: ToneKind,
    freq: int,
    total: int,
    fade_permille: int,
    rate: int,
)
    requires
        1 <= total,
        1 <= fade_permille <= MAX_FADE_PERMILLE,
        fade_samples_spec(fade_permille, total) >= 1,
        kind != ToneKind::Simple,
    ensures
        env_gain_spec(0, total, fade_samples_spec(fade_permille, total)) == 0,
        env_gain_spec(total, total, fade_samples_spec(fade_permille, total)) == 0,
        env_gain_spec(total / 2, total, fade_samples_spec(fade_permille, total)) == GAIN_ONE,
        tone_sample_spec(kind, freq, 0, total, fade_permille, rate) == 0,
        tone_sample_spec(kind, freq, total / 2, total, fade_permille, rate) == scale_amp_spec(
            raw_wave_spec(kind, freq, total / 2, rate),
            GAIN_ONE as int,
            2_000_000,
        ),
{
    let fs = fade_samples_spec(fade_permille, total);
    vstd::arithmetic::mul::lemma_mul_inequality(fade_permille, 499, total);
    vstd::arithmetic::mul::lemma_mul_is_commutative(fade_permille, total);
    vstd::arithmetic::mul::lemma_mul_is_commutative(499, total);
    vstd::arithmetic::div_mod::lemma_fundamental_div_mod(fade_permille * total, 1000);
    vstd::arithmetic::div_mod::lemma_mod_division_less_than_divisor(fade_permille * total, 1000);
    vstd::arithmetic::div_mod::lemma_fundamental_div_mod(total, 2);
    vstd::arithmetic::div_mod::lemma_mod_division_less_than_divisor(total, 2);
    // 1000 * fs <= 499 * total and 2 * (total / 2) >= total - 1, so the
    // ramps end strictly before the middle and resume strictly after it.
    assert(2 * fs <= total);
    assert(fs <= total / 2);
    assert(total / 2 < total - fs);
    vstd::arithmetic::div_mod::lemma_div_of0(fs);
    let raw0 = raw_wave_spec(kind, freq, 0, rate);
    assert(scale_amp_spec(raw0, 0, 2_000_000) == 0) by {
        vstd::arithmetic::div_mod::lemma_div_of0(2_000_000);
    }
}

} // verus!
