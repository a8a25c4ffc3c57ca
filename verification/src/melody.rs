//! The melody sequencer: an ordered list of tones rendered into one buffer.
//!
//! A melody owns its tones plus two shared scalars, the sample rate and the
//! fade fraction (in thousandths of each tone's duration, spent in each
//! ramp).  Construction validates everything — pitch letter, octave range,
//! duration, rate, fade — and rendering then maps every tone to
//! `round(duration * rate)` samples and concatenates the runs in order,
//! with no overlap and no cross-fade.  Durations are in milliseconds; tempo
//! scaling from beats is a pure integer helper.

use vstd::prelude::*;
use crate::pitch::{Note, note_freq_spec, MAX_OCTAVE};
use crate::envelope::{render_tone, tone_samples_spec, ToneKind, MAX_FADE_PERMILLE};
use crate::wave::{MAX_RATE, MAX_SAMPLES_PER_TONE};
use crate::partials::{generate_partial_table, partial_table_spec};

verus! {

/// Longest tone accepted, in milliseconds (ten minutes).
pub const MAX_TONE_MS: u64 = 600_000;

/// One entry of a melody: a pitch, a duration in milliseconds, and the
/// synthesis mode that renders it.
#[derive(Clone, Copy, PartialEq, Eq, Structural, Debug)]
pub enum Tone {
    /// Plain sine with no envelope.
    Simple(Note, u64),
    /// Organ waveform under the fade envelope.
    Faded(Note, u64),
    /// Partial-table waveform under the fade envelope.
    Complex(Note, u64),
}

impl Tone {
    /// The tone's pitch.
    pub open spec fn note(self) -> Note {
        match self {
            Tone::Simple(n, _) => n,
            Tone::Faded(n, _) => n,
            Tone::Complex(n, _) => n,
        }
    }

    /// The tone's duration in milliseconds.
    pub open spec fn duration_ms(self) -> u64 {
        match self {
            Tone::Simple(_, d) => d,
            Tone::Faded(_, d) => d,
            Tone::Complex(_, d) => d,
        }
    }

    /// The waveform and envelope selection the tone's variant stands for.
    pub open spec fn kind(self) -> ToneKind {
        match self {
            Tone::Simple(_, _) => ToneKind::Simple,
            Tone::Faded(_, _) => ToneKind::Faded,
            Tone::Complex(_, _) => ToneKind::Complex,
        }
    }

    /// A tone is well formed when its pitch is and its duration is in range.
    pub open spec fn wf(self) -> bool {
        self.note().wf() && self.duration_ms() <= MAX_TONE_MS
    }
}

/// Why a melody was rejected at construction.
#[derive(Clone, Copy, PartialEq, Eq, Structural, Debug)]
pub enum MelodyError {
    /// The sample rate is zero or above the supported maximum.
    InvalidSampleRate,
    /// The fade fraction is half or more of the tone.
    InvalidFadeFraction,
    /// A tone's note letter is not one of the seven, or its octave is out
    /// of range.
    InvalidPitch,
    /// A tone's duration exceeds the supported maximum.
    InvalidDuration,
}

/// Number of samples a tone of `duration_ms` renders to at `rate`:
/// `duration_ms * rate / 1000`, rounded to the nearest sample.
pub open spec fn samples_for_spec(duration_ms: int, rate: int) -> int {
    (duration_ms * rate + 500) / 1000
}

/// What is wrong with one tone, if anything.
pub open spec fn tone_error_spec(t: Tone) -> Option<MelodyError> {
    if !t.note().wf() {
        Some(MelodyError::InvalidPitch)
    } else if t.duration_ms() > MAX_TONE_MS {
        Some(MelodyError::InvalidDuration)
    } else {
        None
    }
}

/// The first tone error at or after position `i`, scanning in order.
pub open spec fn first_tone_error_from(tones: Seq<Tone>, i: int) -> Option<MelodyError>
    decreases tones.len() - i,
{
    if i < 0 || i >= tones.len() {
        None
    } else if tone_error_spec(tones[i]) is Some {
        tone_error_spec(tones[i])
    } else {
        first_tone_error_from(tones, i + 1)
    }
}

/// The verdict of melody validation: the sample rate is checked first, then
/// the fade fraction, then the tones in order.
pub open spec fn validate_spec(tones: Seq<Tone>, rate: int, fade_permille: int) -> Option<
    MelodyError,
> {
    if rate < 1 || rate > MAX_RATE {
        Some(MelodyError::InvalidSampleRate)
    } else if fade_permille > MAX_FADE_PERMILLE {
        Some(MelodyError::InvalidFadeFraction)
    } else {
        first_tone_error_from(tones, 0)
    }
}

proof fn lemma_no_tone_error(tones: Seq<Tone>, i: int)
    requires
        0 <= i <= tones.len(),
    ensures
        (first_tone_error_from(tones, i) is None) <==> (forall|j: int|
            i <= j < tones.len() ==> (#[trigger] tones[j]).wf()),
    decreases tones.len() - i,
{
    if i < tones.len() {
        lemma_no_tone_error(tones, i + 1);
    }
}

/// An ordered sequence of tones plus the shared sample rate and fade
/// fraction.  Built through `new`, which validates; rendering requires a
/// well-formed melody.
#[derive(Debug)]
pub struct Melody {
    pub tones: Vec<Tone>,
    pub sample_rate: u32,
    pub fade_permille: u32,
}

/// The rendered samples of one tone.
pub open spec fn tone_render_spec(t: Tone, rate: int, fade_permille: int) -> Seq<i64> {
    tone_samples_spec(
        t.kind(),
        note_freq_spec(t.note()),
        samples_for_spec(t.duration_ms() as int, rate),
        fade_permille,
        rate,
    )
}

/// The rendered samples of a whole melody: each tone's run, concatenated in
/// order.
pub open spec fn melody_samples_spec(tones: Seq<Tone>, rate: int, fade_permille: int) -> Seq<i64>
    decreases tones.len(),
{
    if tones.len() == 0 {
        Seq::empty()
    } else {
        melody_samples_spec(tones.drop_last(), rate, fade_permille) + tone_render_spec(
            tones.last(),
            rate,
            fade_permille,
        )
    }
}

/// Sum of the per-tone sample counts of a melody.
pub open spec fn total_samples_spec(tones: Seq<Tone>, rate: int) -> int
    decreases tones.len(),
{
    if tones.len() == 0 {
        0
    } else {
        total_samples_spec(tones.drop_last(), rate) + samples_for_spec(
            tones.last().duration_ms() as int,
            rate,
        )
    }
}

impl Melody {
    /// A melody is well formed when rate and fade are in range and every
    /// tone is well formed.
    pub open spec fn wf(self) -> bool {
        1 <= self.sample_rate <= MAX_RATE && self.fade_permille <= MAX_FADE_PERMILLE && forall|
            i: int,
        |
            0 <= i < self.tones@.len() ==> (#[trigger] self.tones@[i]).wf()
    }

    /// Validating constructor: returns the melody exactly when the rate,
    /// the fade fraction and every tone are acceptable, and otherwise the
    /// first failure in checking order.
    pub fn new(tones: Vec<Tone>, sample_rate: u32, fade_permille: u32) -> (r: Result<
        Melody,
        MelodyError,
    >)
        ensures
            match r {
                Ok(m) => validate_spec(tones@, sample_rate as int, fade_permille as int) is None
                    && m.tones@ == tones@ && m.sample_rate == sample_rate && m.fade_permille
                    == fade_permille && m.wf(),
                Err(e) => validate_spec(tones@, sample_rate as int, fade_permille as int) == Some(
                    e,
                ),
            },
    {
        if sample_rate < 1 || sample_rate > MAX_RATE {
            return Err(MelodyError::InvalidSampleRate);
        }
        if fade_permille > MAX_FADE_PERMILLE {
            return Err(MelodyError::InvalidFadeFraction);
        }
        let mut i: usize = 0;
        while i < tones.len()
            invariant
                i <= tones@.len(),
                1 <= sample_rate <= MAX_RATE,
                fade_permille <= MAX_FADE_PERMILLE,
                first_tone_error_from(tones@, 0) == first_tone_error_from(tones@, i as int),
            decreases tones@.len() - i,
        {
            let t: Tone = tones[i];
            let nt: Note = match t {
                Tone::Simple(n, _) => n,
                Tone::Faded(n, _) => n,
                Tone::Complex(n, _) => n,
            };
            let dur: u64 = match t {
                Tone::Simple(_, d) => d,
                Tone::Faded(_, d) => d,
                Tone::Complex(_, d) => d,
            };
            assert(nt == t.note() && dur == t.duration_ms());
            if !Note::letter_is_valid(nt.letter) || nt.octave < 0 || nt.octave > MAX_OCTAVE {
                assert(tone_error_spec(tones@[i as int]) == Some(MelodyError::InvalidPitch));
                assert(first_tone_error_from(tones@, i as int) == Some(MelodyError::InvalidPitch));
                return Err(MelodyError::InvalidPitch);
            }
            if dur > MAX_TONE_MS {
                assert(tone_error_spec(tones@[i as int]) == Some(MelodyError::InvalidDuration));
                assert(first_tone_error_from(tones@, i as int) == Some(
                    MelodyError::InvalidDuration,
                ));
                return Err(MelodyError::InvalidDuration);
            }
            i = i + 1;
        }
        proof {
            lemma_no_tone_error(tones@, 0);
        }
        Ok(Melody { tones, sample_rate, fade_permille })
    }

    /// Renders the melody: every tone's samples, concatenated in order.
    /// Rendering is a pure function of the melody's value, so equal
    /// melodies always render to equal buffers.
    pub fn render(&self) -> (out: Vec<i64>)
        requires
            self.wf(),
        ensures
            out@ == melody_samples_spec(
                self.tones@,
                self.sample_rate as int,
                self.fade_permille as int,
            ),
    {
        let table: Vec<(i64, i64)> = generate_partial_table();
        let mut out: Vec<i64> = Vec::new();
        let mut i: usize = 0;
        while i < self.tones.len()
            invariant
                self.wf(),
                table@ == partial_table_spec(),
                i <= self.tones@.len(),
                out@ == melody_samples_spec(
                    self.tones@.take(i as int),
                    self.sample_rate as int,
                    self.fade_permille as int,
                ),
            decreases self.tones@.len() - i,
        {
            let t: Tone = self.tones[i];
            let (kind, nt, dur): (ToneKind, Note, u64) = match t {
                Tone::Simple(n, d) => (ToneKind::Simple, n, d),
                Tone::Faded(n, d) => (ToneKind::Faded, n, d),
                Tone::Complex(n, d) => (ToneKind::Complex, n, d),
            };
            let freq: u64 = nt.to_frequency();
            let total: usize = samples_for(dur, self.sample_rate);
            let mut seg: Vec<i64> = render_tone(
                kind,
                freq,
                total,
                self.fade_permille,
                self.sample_rate,
                &table,
            );
            out.append(&mut seg);
            i = i + 1;
            proof {
                assert(self.tones@.take(i as int).drop_last() =~= self.tones@.take(i as int - 1));
                assert(self.tones@.take(i as int).last() == self.tones@[i as int - 1]);
            }
        }
        proof {
            assert(self.tones@.take(self.tones@.len() as int) =~= self.tones@);
        }
        out
    }
}

/// Renders a melody into its flat sample buffer.
pub fn render_melody(melody: &Melody) -> (out: Vec<i64>)
    requires
        melody.wf(),
    ensures
        out@ == melody_samples_spec(
            melody.tones@,
            melody.sample_rate as int,
            melody.fade_permille as int,
        ),
{
    melody.render()
}

/// Number of samples a tone of `duration_ms` renders to at `rate`.
pub fn samples_for(duration_ms: u64, rate: u32) -> (r: usize)
    requires
        duration_ms <= MAX_TONE_MS,
        1 <= rate <= MAX_RATE,
    ensures
        r == samples_for_spec(duration_ms as int, rate as int),
        r <= MAX_SAMPLES_PER_TONE,
{
    proof {
        vstd::arithmetic::mul::lemma_mul_upper_bound(
            duration_ms as int,
            MAX_TONE_MS as int,
            rate as int,
            MAX_RATE as int,
        );
        vstd::arithmetic::div_mod::lemma_div_is_ordered(
            duration_ms as int * rate as int + 500,
            MAX_TONE_MS as int * MAX_RATE as int + 500,
            1000,
        );
        vstd::arithmetic::div_mod::lemma_div_pos_is_pos(
            duration_ms as int * rate as int + 500,
            1000,
        );
    }
    (((duration_ms * (rate as u64)) + 500) / 1000) as usize
}

/// Length law: a rendered melody holds exactly the sum over its tones of
/// `round(duration * rate)` samples, in order.
pub proof fn lemma_melody_sample_count(tones: Seq<Tone>, rate: int, fade_permille: int)
    requires
        rate >= 1,
    ensures
        melody_samples_spec(tones, rate, fade_permille).len() == total_samples_spec(tones, rate),
        total_samples_spec(tones, rate) >= 0,
    decreases tones.len(),
{
    if tones.len() == 0 {
    } else {
        lemma_melody_sample_count(tones.drop_last(), rate, fade_permille);
        let d = tones.last().duration_ms() as int;
        vstd::arithmetic::mul::lemma_mul_nonnegative(d, rate);
        vstd::arithmetic::div_mod::lemma_div_pos_is_pos(d * rate + 500, 1000);
    }
}

/// Determinism law: rendering depends on nothing but the melody's value, so
/// two equal melodies render to the same buffer.
pub proof fn lemma_render_deterministic(
    tones1: Seq<Tone>,
    tones2: Seq<Tone>,
    rate1: int,
    rate2: int,
    fade1: int,
    fade2: int,
)
    requires
        tones1 == tones2,
        rate1 == rate2,
        fade1 == fade2,
    ensures
        melody_samples_spec(tones1, rate1, fade1) == melody_samples_spec(tones2, rate2, fade2),
{
}

/// Milliseconds each beat lasts at `tempo` beats per minute.
pub fn millis_per_beat(tempo: u64) -> (r: u64)
    requires
        1 <= tempo,
    ensures
        r == 60000 as int / tempo as int,
{
    60000 / tempo
}

/// Scales a duration of `beats_milli` thousandths of a beat to
/// milliseconds at `tempo` beats per minute.
pub fn beats_to_millis(beats_milli: u64, tempo: u64) -> (r: u64)
    requires
        1 <= tempo,
        beats_milli <= 1_000_000_000,
    ensures
        r == beats_milli as int * 60 / tempo as int,
{
    (beats_milli * 60) / tempo
}

} // verus!
