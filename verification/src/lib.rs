//! Additive-synthesis melody renderer in fixed-point arithmetic.
//!
//! A melody is an ordered list of tones, each a pitch (note letter and
//! octave), a duration and a synthesis mode.  Rendering maps every tone to a
//! finite run of amplitude samples — a sine, organ or partial-table waveform
//! shaped by a trapezoidal fade envelope — and concatenates the runs into one
//! flat buffer, which a pull-based streaming cursor then hands out one sample
//! at a time.
//!
//! All quantities are integers with fixed scales: frequencies in millihertz,
//! amplitudes in millionths of full scale, fade fractions in thousandths,
//! durations in milliseconds.  Rendering is a pure function of the melody, so
//! identical melodies always render to identical buffers.

pub mod pitch;
pub mod wave;
pub mod partials;
pub mod envelope;
pub mod melody;
pub mod stream;
pub mod quantize;
