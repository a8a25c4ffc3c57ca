//! The fixed partial table and the "complex" waveform built from it.
//!
//! The table is an ordered list of (frequency ratio, amplitude) pairs.
//! Ratios are in nanounits (1_000_000_000 is a ratio of one), amplitudes in
//! millionths of full scale.  Three voices sit at the integer ratios 0, 2
//! and 4; each voice contributes its center plus up to seven sideband pairs
//! placed symmetrically around the center, the offset starting near 0.1475
//! and growing by about 0.1311 per step.  Every entry of a voice carries the
//! same amplitude, a per-voice constant that decays exponentially from about
//! 0.79 toward a floor (the three values are precomputed).  One literal
//! exception, kept deliberately: the third voice omits the lower sideband
//! from the third step on, so the table holds 40 entries rather than 45.
//!
//! The complex waveform is the amplitude-weighted sum of sines at each
//! entry's ratio times the base frequency; a negative ratio contributes the
//! negated sine of its magnitude.

use vstd::prelude::*;
use crate::pitch::MAX_NOTE_FREQ_MILLIHZ;
use crate::wave::{
    phase_of, sine_milli, scale_amp_spec, sine_sample, scale_amp, MAX_RATE,
    MAX_SAMPLES_PER_TONE,
};

verus! {

/// Nanounits per unit frequency ratio.
pub const RATIO_ONE: i64 = 1_000_000_000;

/// Amplitude shared by every entry of voice `i`, in millionths: the
/// precomputed exponential decay from the first voice's 0.791478 toward the
/// floor constant.
pub open spec fn voice_amp(i: int) -> i64 {
    if i == 1 {
        791478i64
    } else if i == 2 {
        580021i64
    } else {
        475869i64
    }
}

/// Center ratio of voice `i` in nanounits: 0, 2 and 4.
pub open spec fn voice_base(i: int) -> int {
    2_000_000_000 * (i - 1)
}

/// Sideband offset of step `j` in nanounits: 0.147540984 plus 0.131147541
/// per further step.
pub open spec fn sideband_offset(j: int) -> int {
    147540984 + 131147541 * (j - 1)
}

/// The entries step `j` adds to voice `i`: the lower then the upper
/// sideband, except that the third voice omits its lower sideband from step
/// three on.
pub open spec fn sideband_pair(i: int, j: int) -> Seq<(i64, i64)> {
    let lo = (((voice_base(i) - sideband_offset(j)) as i64), voice_amp(i));
    let hi = (((voice_base(i) + sideband_offset(j)) as i64), voice_amp(i));
    if i == 3 && j > 2 {
        seq![hi]
    } else {
        seq![lo, hi]
    }
}

/// All sidebands of voice `i` through step `j`, in generation order.
pub open spec fn voice_sidebands(i: int, j: int) -> Seq<(i64, i64)>
    decreases j,
{
    if j <= 0 {
        Seq::empty()
    } else {
        voice_sidebands(i, j - 1) + sideband_pair(i, j)
    }
}

/// Voice `i` entire: its center followed by its seven sideband steps.
pub open spec fn voice_entries(i: int) -> Seq<(i64, i64)> {
    seq![(((voice_base(i)) as i64), voice_amp(i))] + voice_sidebands(i, 7)
}

/// The first `i` voices, concatenated.
pub open spec fn voices_prefix(i: int) -> Seq<(i64, i64)>
    decreases i,
{
    if i <= 0 {
        Seq::empty()
    } else {
        voices_prefix(i - 1) + voice_entries(i)
    }
}

/// The full partial table: three voices, 40 entries.
pub open spec fn partial_table_spec() -> Seq<(i64, i64)> {
    voices_prefix(3)
}

/// Ranges every table entry stays within: ratio magnitude at most five,
/// amplitude positive and at most full scale.
pub open spec fn entry_ok(e: (i64, i64)) -> bool {
    -5_000_000_000 <= e.0 <= 5_000_000_000 && 0 < e.1 <= 1_000_000
}

proof fn lemma_voice_sidebands_len(i: int, j: int)
    requires
        1 <= i <= 3,
        0 <= j <= 7,
    ensures
        voice_sidebands(i, j).len() == (
        if i == 3 && j > 2 {
            4 + (j - 2)
        } else {
            2 * j
        }),
    decreases j,
{
    if j > 0 {
        lemma_voice_sidebands_len(i, j - 1);
    }
}

/// The table holds exactly 40 entries: two voices of 15 and one of 10.
pub proof fn lemma_partial_table_len()
    ensures
        partial_table_spec().len() == 40,
        voice_entries(1).len() == 15,
        voice_entries(2).len() == 15,
        voice_entries(3).len() == 10,
{
    reveal_with_fuel(voices_prefix, 5);
    lemma_voice_sidebands_len(1, 7);
    lemma_voice_sidebands_len(2, 7);
    lemma_voice_sidebands_len(3, 7);
}

proof fn lemma_voice_sidebands_ok(i: int, j: int)
    requires
        1 <= i <= 3,
        0 <= j <= 7,
    ensures
        forall|k: int|
            0 <= k < voice_sidebands(i, j).len() ==> entry_ok(#[trigger] voice_sidebands(i, j)[k]),
    decreases j,
{
    if j > 0 {
        lemma_voice_sidebands_ok(i, j - 1);
        let a = voice_sidebands(i, j - 1);
        let b = sideband_pair(i, j);
        assert forall|k: int|
            0 <= k < voice_sidebands(i, j).len() implies entry_ok(
            #[trigger] voice_sidebands(i, j)[k],
        ) by {
            assert(voice_sidebands(i, j) == a + b);
            if k < a.len() {
                assert(voice_sidebands(i, j)[k] == a[k]);
            } else {
                assert(voice_sidebands(i, j)[k] == b[k - a.len()]);
            }
        }
    }
}

proof fn lemma_voice_entry_ok(i: int, k: int)
    requires
        1 <= i <= 3,
        0 <= k < voice_entries(i).len(),
    ensures
        entry_ok(voice_entries(i)[k]),
{
    lemma_voice_sidebands_ok(i, 7);
    let c: Seq<(i64, i64)> = seq![(((voice_base(i)) as i64), voice_amp(i))];
    let s = voice_sidebands(i, 7);
    if k == 0 {
        assert(voice_entries(i)[0] == c[0]);
    } else {
        assert(voice_entries(i)[k] == s[k - 1]);
    }
}

/// Every table entry is within the ranges `entry_ok` names.
pub proof fn lemma_partial_table_bounds()
    ensures
        forall|k: int|
            0 <= k < partial_table_spec().len() ==> entry_ok(#[trigger] partial_table_spec()[k]),
{
    lemma_partial_table_len();
    reveal_with_fuel(voices_prefix, 5);
    let t = partial_table_spec();
    let v1 = voice_entries(1);
    let v2 = voice_entries(2);
    let v3 = voice_entries(3);
    assert(t =~= v1 + v2 + v3);
    assert forall|k: int| 0 <= k < t.len() implies entry_ok(#[trigger] t[k]) by {
        if k < 15 {
            assert(t[k] == v1[k]);
            lemma_voice_entry_ok(1, k);
        } else if k < 30 {
            assert(t[k] == v2[k - 15]);
            lemma_voice_entry_ok(2, k - 15);
        } else {
            assert(t[k] == v3[k - 30]);
            lemma_voice_entry_ok(3, k - 30);
        }
    }
}

/// Builds the partial table by the fixed generation algorithm: for each of
/// three voices, push the center, then walk the seven sideband steps pushing
/// the lower and upper sidebands, minus the third voice's omitted lower
/// sidebands.
pub fn generate_partial_table() -> (t: Vec<(i64, i64)>)
    ensures
        t@ == partial_table_spec(),
        t@.len() == 40,
{
    let mut t: Vec<(i64, i64)> = Vec::new();
    let mut base: i64 = 0;
    let mut i: u32 = 1;
    while i <= 3
        invariant
            1 <= i <= 4,
            base == voice_base(i as int),
            t@ == voices_prefix(i as int - 1),
        decreases 4 - i,
    {
        let amp: i64 = if i == 1 {
            791478
        } else if i == 2 {
            580021
        } else {
            475869
        };
        assert(amp == voice_amp(i as int));
        t.push((base, amp));
        let ghost center: Seq<(i64, i64)> = seq![(((voice_base(i as int)) as i64), voice_amp(i as int))];
        assert(t@ =~= voices_prefix(i as int - 1) + center + voice_sidebands(i as int, 0));
        let mut add: i64 = 147540984;
        let mut j: u32 = 1;
        while j <= 7
            invariant
                1 <= j <= 8,
                1 <= i <= 3,
                add == sideband_offset(j as int),
                base == voice_base(i as int),
                amp == voice_amp(i as int),
                t@ == voices_prefix(i as int - 1) + center + voice_sidebands(i as int, j as int - 1),
                center == seq![(((voice_base(i as int)) as i64), voice_amp(i as int))],
            decreases 8 - j,
        {
            if !(i == 3 && j > 2) {
                t.push((base - add, amp));
            }
            t.push((base + add, amp));
            assert(t@ =~= voices_prefix(i as int - 1) + center + voice_sidebands(i as int, j as int));
            add = add + 131147541;
            j = j + 1;
        }
        assert(t@ =~= voices_prefix(i as int));
        base = base + 2_000_000_000;
        i = i + 1;
    }
    proof {
        lemma_partial_table_len();
    }
    t
}

/// Contribution of one table entry to the complex waveform at sample `n`:
/// the sine at `|ratio| * freq` scaled by the entry's amplitude, negated
/// when the ratio is negative.
pub open spec fn partial_term_spec(freq: int, n: int, rate: int, ratio: int, amp: int) -> int {
    let pf = (if ratio >= 0 {
        ratio
    } else {
        -ratio
    }) * freq / 1_000_000_000;
    let s = sine_milli(phase_of(pf, n, rate));
    scale_amp_spec(
        if ratio < 0 {
            -s
        } else {
            s
        },
        amp,
        1_000_000,
    )
}

/// Sum of the contributions of `entries` to the complex waveform.
pub open spec fn partial_sum_spec(freq: int, n: int, rate: int, entries: Seq<(i64, i64)>) -> int
    decreases entries.len(),
{
    if entries.len() == 0 {
        0
    } else {
        partial_sum_spec(freq, n, rate, entries.drop_last()) + partial_term_spec(
            freq,
            n,
            rate,
            entries.last().0 as int,
            entries.last().1 as int,
        )
    }
}

/// Complex waveform amplitude at sample `n`: the full partial table summed.
pub open spec fn complex_sample_spec(freq: int, n: int, rate: int) -> int {
    partial_sum_spec(freq, n, rate, partial_table_spec())
}

/// Complex waveform sample over a materialized partial table.
pub fn complex_sample(table: &Vec<(i64, i64)>, freq: u64, n: u64, rate: u32) -> (r: i64)
    requires
        table@ == partial_table_spec(),
        1 <= rate <= MAX_RATE,
        freq <= MAX_NOTE_FREQ_MILLIHZ,
        n < MAX_SAMPLES_PER_TONE,
    ensures
        r == complex_sample_spec(freq as int, n as int, rate as int),
        -40_000_000 <= r <= 40_000_000,
{
    proof {
        lemma_partial_table_len();
        lemma_partial_table_bounds();
    }
    let mut sum: i64 = 0;
    let mut idx: usize = 0;
    while idx < table.len()
        invariant
            table@ == partial_table_spec(),
            table@.len() == 40,
            forall|k: int| 0 <= k < table@.len() ==> entry_ok(#[trigger] table@[k]),
            1 <= rate <= MAX_RATE,
            freq <= MAX_NOTE_FREQ_MILLIHZ,
            n < MAX_SAMPLES_PER_TONE,
            idx <= 40,
            sum == partial_sum_spec(freq as int, n as int, rate as int, table@.take(idx as int)),
            -1_000_000 * idx <= sum <= 1_000_000 * idx,
        decreases 40 - idx,
    {
        let entry: (i64, i64) = table[idx];
        let ratio: i64 = entry.0;
        let amp: i64 = entry.1;
        let mag: u64 = if ratio >= 0 {
            ratio as u64
        } else {
            (-ratio) as u64
        };
        proof {
            vstd::arithmetic::mul::lemma_mul_upper_bound(
                mag as int,
                5_000_000_000,
                freq as int,
                MAX_NOTE_FREQ_MILLIHZ as int,
            );
            vstd::arithmetic::div_mod::lemma_div_is_ordered(
                mag as int * freq as int,
                5_000_000_000 * MAX_NOTE_FREQ_MILLIHZ as int,
                1_000_000_000,
            );
            vstd::arithmetic::div_mod::lemma_div_pos_is_pos(mag as int * freq as int, 1_000_000_000);
        }
        let pf: u64 = (mag * freq) / 1_000_000_000;
        let s: i64 = sine_sample(pf, n, rate);
        let signed: i64 = if ratio < 0 {
            -s
        } else {
            s
        };
        let term: i64 = scale_amp(signed, amp, 1_000_000);
        sum = sum + term;
        idx = idx + 1;
        proof {
            assert(table@.take(idx as int).drop_last() =~= table@.take(idx as int - 1));
            assert(table@.take(idx as int).last() == table@[idx as int - 1]);
        }
    }
    proof {
        assert(table@.take(40) =~= table@);
    }
    sum
}

} // verus!
