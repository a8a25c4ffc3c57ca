use melody_synth::envelope::ToneKind;
use melody_synth::melody::{
    beats_to_millis, millis_per_beat, render_melody, Melody, MelodyError, Tone,
};
use melody_synth::partials::generate_partial_table;
use melody_synth::pitch::Note;
use melody_synth::quantize::{quantize, quantize_sample};
use melody_synth::stream::MelodyAudio;
use melody_synth::wave::{organ_sample, scale_amp, sine_amp, sine_sample};
use melody_synth::envelope::render_tone;

fn note(letter: char, octave: i32) -> Note {
    Note { letter, octave }
}

#[test]
fn reference_pitch_is_440() {
    // A4 is exactly 440 Hz, i.e. 440000 millihertz.
    assert_eq!(note('a', 4).to_frequency(), 440_000);
}

#[test]
fn octave_doubling() {
    for letter in ['a', 'b', 'c', 'd', 'e', 'f', 'g'] {
        for octave in 0..8 {
            let low = note(letter, octave).to_frequency();
            let high = note(letter, octave + 1).to_frequency();
            assert_eq!(high, 2 * low);
        }
    }
    assert_eq!(note('a', 5).to_frequency(), 880_000);
    assert_eq!(note('a', 0).to_frequency(), 27_500);
}

#[test]
fn partial_table_has_forty_entries() {
    let t = generate_partial_table();
    assert_eq!(t.len(), 40);
    // First voice: center at ratio 0, then symmetric sidebands.
    assert_eq!(t[0], (0, 791_478));
    assert_eq!(t[1], (-147_540_984, 791_478));
    assert_eq!(t[2], (147_540_984, 791_478));
    assert_eq!(t[3], (-278_688_525, 791_478));
    assert_eq!(t[4], (278_688_525, 791_478));
    // Second voice starts at entry 15 with its center at ratio 2.
    assert_eq!(t[15], (2_000_000_000, 580_021));
    assert_eq!(t[16], (1_852_459_016, 580_021));
    assert_eq!(t[17], (2_147_540_984, 580_021));
    // Third voice: center at ratio 4; lower sidebands stop after two steps.
    assert_eq!(t[30], (4_000_000_000, 475_869));
    assert_eq!(t[31], (3_852_459_016, 475_869));
    assert_eq!(t[32], (4_147_540_984, 475_869));
    assert_eq!(t[33], (3_721_311_475, 475_869));
    assert_eq!(t[34], (4_278_688_525, 475_869));
    assert_eq!(t[35], (4_409_836_066, 475_869));
    assert_eq!(t[39], (4_934_426_230, 475_869));
}

#[test]
fn melody_length_is_sum_of_rounded_tone_lengths() {
    let tones = vec![
        Tone::Simple(note('a', 4), 100),
        Tone::Faded(note('e', 5), 250),
        Tone::Complex(note('c', 3), 33),
    ];
    let melody = Melody::new(tones, 8000, 100).unwrap();
    let buffer = render_melody(&melody);
    // round(0.1 * 8000) + round(0.25 * 8000) + round(0.033 * 8000)
    assert_eq!(buffer.len(), 800 + 2000 + 264);
}

#[test]
fn rendering_is_deterministic() {
    let tones = vec![
        Tone::Complex(note('d', 5), 120),
        Tone::Faded(note('g', 4), 80),
    ];
    let m1 = Melody::new(tones.clone(), 22_050, 40).unwrap();
    let m2 = Melody::new(tones, 22_050, 40).unwrap();
    let b1 = render_melody(&m1);
    let b2 = render_melody(&m2);
    assert_eq!(b1, b2);
}

#[test]
fn envelope_starts_silent_and_sustains_in_the_middle() {
    let melody = Melody::new(vec![Tone::Faded(note('a', 4), 1000)], 1000, 100).unwrap();
    let buffer = render_melody(&melody);
    assert_eq!(buffer.len(), 1000);
    // Ramp endpoint: the first sample carries zero gain.
    assert_eq!(buffer[0], 0);
    // Mid-tone the envelope is at full gain: the sample is exactly the
    // halved raw organ waveform.
    let raw = organ_sample(440_000, 500, 1000);
    let expected = scale_amp(raw, 1_000_000, 2_000_000);
    assert_eq!(buffer[500], expected);
    // The last ramp sample is nearly silent.
    assert!(buffer[999].abs() <= 10_000);
}

#[test]
fn simple_tone_skips_the_envelope() {
    let melody = Melody::new(vec![Tone::Simple(note('a', 4), 100)], 1000, 499).unwrap();
    let buffer = render_melody(&melody);
    assert_eq!(buffer.len(), 100);
    for n in 0..100u64 {
        let raw = sine_sample(440_000, n, 1000);
        let expected = scale_amp(raw, 1_000_000, 2_000_000);
        assert_eq!(buffer[n as usize], expected);
    }
}

#[test]
fn sine_is_exact_at_crossings_and_peaks() {
    assert_eq!(sine_amp(0), 0);
    assert_eq!(sine_amp(16_384), 1_000_000);
    assert_eq!(sine_amp(32_768), 0);
    assert_eq!(sine_amp(49_152), -1_000_000);
}

#[test]
fn streaming_source_ends_cleanly() {
    let melody = Melody::new(vec![Tone::Faded(note('c', 4), 50)], 1000, 100).unwrap();
    let expected = render_melody(&melody);
    let mut source = MelodyAudio::from_melody(melody);
    assert_eq!(source.channels(), 1);
    assert_eq!(source.sample_rate(), 1000);
    assert_eq!(source.current_frame_len(), None);
    assert_eq!(source.total_duration_ms(), None);
    for i in 0..expected.len() {
        assert_eq!(source.next_sample(), Some(expected[i]));
    }
    // Exhaustion is terminal: every further pull answers None.
    for _ in 0..5 {
        assert_eq!(source.next_sample(), None);
        assert_eq!(source.channels(), 1);
    }
}

#[test]
fn end_to_end_complex_second() {
    let melody = Melody::new(vec![Tone::Complex(note('a', 4), 1000)], 44_100, 20).unwrap();
    let buffer = render_melody(&melody);
    assert_eq!(buffer.len(), 44_100);
    assert_eq!(buffer[0], 0);
    // Mid-sustain stays within the headroom the partial weights leave.
    assert!(buffer[22_050] >= -900_000 && buffer[22_050] <= 900_000);
}

#[test]
fn tempo_scaling() {
    assert_eq!(millis_per_beat(120), 500);
    assert_eq!(millis_per_beat(90), 666);
    // A one-beat tone at 120 beats per minute lasts half a second.
    assert_eq!(beats_to_millis(1000, 120), 500);
    assert_eq!(beats_to_millis(500, 90), 333);
    assert_eq!(beats_to_millis(250, 120), 125);
}

#[test]
fn melody_validation_rejects_bad_input() {
    let good = vec![Tone::Simple(note('a', 4), 100)];
    assert!(Melody::new(good.clone(), 44_100, 20).is_ok());
    assert_eq!(
        Melody::new(good.clone(), 0, 20).unwrap_err(),
        MelodyError::InvalidSampleRate
    );
    assert_eq!(
        Melody::new(good.clone(), 200_000, 20).unwrap_err(),
        MelodyError::InvalidSampleRate
    );
    assert_eq!(
        Melody::new(good.clone(), 44_100, 500).unwrap_err(),
        MelodyError::InvalidFadeFraction
    );
    assert_eq!(
        Melody::new(vec![Tone::Simple(note('x', 4), 100)], 44_100, 20).unwrap_err(),
        MelodyError::InvalidPitch
    );
    assert_eq!(
        Melody::new(vec![Tone::Faded(note('a', 9), 100)], 44_100, 20).unwrap_err(),
        MelodyError::InvalidPitch
    );
    assert_eq!(
        Melody::new(vec![Tone::Faded(note('a', -1), 100)], 44_100, 20).unwrap_err(),
        MelodyError::InvalidPitch
    );
    assert_eq!(
        Melody::new(vec![Tone::Complex(note('a', 4), 600_001)], 44_100, 20).unwrap_err(),
        MelodyError::InvalidDuration
    );
    // The scan reports the first offending tone.
    assert_eq!(
        Melody::new(
            vec![
                Tone::Simple(note('a', 4), 100),
                Tone::Simple(note('a', 4), 600_001),
                Tone::Simple(note('q', 4), 100),
            ],
            44_100,
            20,
        )
        .unwrap_err(),
        MelodyError::InvalidDuration
    );
}

#[test]
fn zero_fade_renders_sustain_only() {
    let melody = Melody::new(vec![Tone::Faded(note('a', 4), 10)], 1000, 0).unwrap();
    let buffer = render_melody(&melody);
    assert_eq!(buffer.len(), 10);
    for n in 0..10u64 {
        let raw = organ_sample(440_000, n, 1000);
        let expected = scale_amp(raw, 1_000_000, 2_000_000);
        assert_eq!(buffer[n as usize], expected);
    }
}

#[test]
fn empty_melody_renders_empty_buffer() {
    let melody = Melody::new(Vec::new(), 44_100, 20).unwrap();
    assert_eq!(render_melody(&melody).len(), 0);
}

#[test]
fn quantization_maps_full_scale_to_16_bits() {
    assert_eq!(quantize_sample(0), 0);
    assert_eq!(quantize_sample(1_000_000), 32_767);
    assert_eq!(quantize_sample(-1_000_000), -32_767);
    assert_eq!(quantize_sample(500_000), 16_383);
    // Out-of-scale amplitudes clamp.
    assert_eq!(quantize_sample(2_000_000), 32_767);
    assert_eq!(quantize_sample(-2_000_000), -32_767);
    let q = quantize(&vec![0, 250_000, -1_000_000]);
    assert_eq!(q, vec![0, 8_191, -32_767]);
}

#[test]
fn render_tone_matches_melody_segment() {
    let table = generate_partial_table();
    let seg = render_tone(ToneKind::Complex, 440_000, 500, 100, 1000, &table);
    let melody = Melody::new(vec![Tone::Complex(note('a', 4), 500)], 1000, 100).unwrap();
    let buffer = render_melody(&melody);
    assert_eq!(seg, buffer);
}
