//! Pitch mapping: a note letter and octave determine a frequency.
//!
//! Equal temperament referenced to A4 = 440 Hz.  Frequencies are integers in
//! millihertz.  The seven natural letters are a table of base frequencies at
//! octave 0 (A0 is exactly 27.5 Hz = 27500 millihertz); raising the octave by
//! one doubles the frequency exactly, so A4 comes out as exactly 440000
//! millihertz.  The entries other than A are rounded to the nearest
//! millihertz at octave 0.

use vstd::prelude::*;

verus! {

/// Highest octave a note may carry; keeps every frequency computation and
/// every derived waveform phase product inside 64-bit arithmetic.
pub const MAX_OCTAVE: i32 = 8;

/// Largest base-octave table entry (the letter B).
pub const MAX_BASE_MILLIHZ: u64 = 30868;

/// Largest note frequency: B at `MAX_OCTAVE`, 30868 << 8.
pub const MAX_NOTE_FREQ_MILLIHZ: u64 = 7902208;

/// The seven recognized note letters.
pub open spec fn is_note_letter(c: char) -> bool {
    c == 'a' || c == 'b' || c == 'c' || c == 'd' || c == 'e' || c == 'f' || c == 'g'
}

/// Frequency of each letter at octave 0, in millihertz: 27500 * 2^(s/12)
/// rounded, where s is the letter's semitone offset from A
/// (c, d, e, f, g, a, b have offsets -9, -7, -5, -4, -2, 0, 2).
pub open spec fn letter_base_millihz(c: char) -> int {
    if c == 'c' {
        16352
    } else if c == 'd' {
        18354
    } else if c == 'e' {
        20602
    } else if c == 'f' {
        21827
    } else if c == 'g' {
        24500
    } else if c == 'a' {
        27500
    } else if c == 'b' {
        30868
    } else {
        0
    }
}

/// 2^e for e >= 0.
pub open spec fn pow2(e: int) -> int
    decreases e,
{
    if e <= 0 {
        1
    } else {
        2 * pow2(e - 1)
    }
}

/// An immutable pitch: one of the seven natural note letters plus an octave.
#[derive(Clone, Copy, PartialEq, Eq, Structural, Debug)]
pub struct Note {
    pub letter: char,
    pub octave: i32,
}

/// Frequency of a note in millihertz: its letter's octave-0 base scaled by
/// 2^octave.
pub open spec fn note_freq_spec(n: Note) -> int {
    letter_base_millihz(n.letter) * pow2(n.octave as int)
}

impl Note {
    /// A note is well formed when its letter is recognized and its octave
    /// lies in the supported range.
    pub open spec fn wf(self) -> bool {
        is_note_letter(self.letter) && 0 <= self.octave <= MAX_OCTAVE
    }

    /// Whether a letter is one of the seven recognized note letters.
    pub fn letter_is_valid(c: char) -> (r: bool)
        ensures
            r == is_note_letter(c),
    {
        c == 'a' || c == 'b' || c == 'c' || c == 'd' || c == 'e' || c == 'f' || c == 'g'
    }

    /// The note's frequency in millihertz.
    pub fn to_frequency(&self) -> (f: u64)
        requires
            self.wf(),
        ensures
            f == note_freq_spec(*self),
            f <= MAX_NOTE_FREQ_MILLIHZ,
    {
        let base: u64 = if self.letter == 'c' {
            16352
        } else if self.letter == 'd' {
            18354
        } else if self.letter == 'e' {
            20602
        } else if self.letter == 'f' {
            21827
        } else if self.letter == 'g' {
            24500
        } else if self.letter == 'a' {
            27500
        } else {
            30868
        };
        assert(base == letter_base_millihz(self.letter));
        let mut f: u64 = base;
        let mut k: i32 = 0;
        while k < self.octave
            invariant
                0 <= k <= self.octave <= MAX_OCTAVE,
                base <= MAX_BASE_MILLIHZ,
                f == base * pow2(k as int),
            decreases self.octave - k,
        {
            proof {
                lemma_pow2_values();
                lemma_pow2_mono(k as int, 7);
                vstd::arithmetic::mul::lemma_mul_upper_bound(
                    base as int,
                    MAX_BASE_MILLIHZ as int,
                    pow2(k as int),
                    128,
                );
                assert(2 * (base as int * pow2(k as int)) == base as int * (2 * pow2(
                    k as int,
                ))) by (nonlinear_arith);
            }
            f = f * 2;
            k = k + 1;
        }
        proof {
            lemma_pow2_values();
            lemma_pow2_mono(self.octave as int, 8);
            vstd::arithmetic::mul::lemma_mul_upper_bound(
                base as int,
                MAX_BASE_MILLIHZ as int,
                pow2(self.octave as int),
                256,
            );
        }
        f
    }
}

/// The powers of two up to 2^8, written out.
pub proof fn lemma_pow2_values()
    ensures
        pow2(0) == 1,
        pow2(1) == 2,
        pow2(2) == 4,
        pow2(3) == 8,
        pow2(4) == 16,
        pow2(5) == 32,
        pow2(6) == 64,
        pow2(7) == 128,
        pow2(8) == 256,
        pow2(9) == 512,
{
    reveal_with_fuel(pow2, 11);
}

/// 2^e is at least 1 for every exponent in this library's range.
pub proof fn lemma_pow2_pos(e: int)
    ensures
        pow2(e) >= 1,
    decreases (if e > 0 { e } else { 0 }),
{
    if e > 0 {
        lemma_pow2_pos(e - 1);
    }
}

/// 2^e is monotone in the exponent.
pub proof fn lemma_pow2_mono(a: int, b: int)
    requires
        a <= b,
    ensures
        pow2(a) <= pow2(b),
    decreases b - a,
{
    if a < b {
        lemma_pow2_mono(a, b - 1);
        lemma_pow2_pos(b - 1);
    }
}

/// Octave doubling: raising a well-formed note by one octave exactly doubles
/// its frequency.
pub proof fn lemma_octave_doubling(n: Note)
    requires
        n.wf(),
        n.octave < MAX_OCTAVE,
    ensures
        note_freq_spec(Note { letter: n.letter, octave: (n.octave + 1) as i32 }) == 2
            * note_freq_spec(n),
{
    let b = letter_base_millihz(n.letter);
    assert(pow2(n.octave as int + 1) == 2 * pow2(n.octave as int));
    assert(b * (2 * pow2(n.octave as int)) == 2 * (b * pow2(n.octave as int)))
        by (nonlinear_arith);
}

} // verus!
