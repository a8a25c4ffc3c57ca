//! Streaming source adapter: a pull cursor over a rendered sample buffer.
//!
//! The cursor starts at the buffer's first sample, advances by one per
//! pull, and is exhausted permanently once it reaches the end: every later
//! pull answers "none", a normal end-of-stream signal, never an error.  The
//! adapter reports a fixed channel count of one and the buffer's sample
//! rate; it reports no frame length and no total duration, since the buffer
//! is not organized into frames.  It assumes a single consumer.

use vstd::prelude::*;
use crate::melody::{melody_samples_spec, render_melody, Melody};

verus! {

/// A rendered melody wrapped in a streaming cursor.
pub struct MelodyAudio {
    /// The finished, read-only sample buffer, in millionths of full scale.
    pub samples: Vec<i64>,
    /// Samples per second of the buffer.
    pub sample_rate: u32,
    /// Index of the next sample to hand out.
    pub position: usize,
}

impl MelodyAudio {
    /// The cursor never passes the end of the buffer.
    pub open spec fn wf(self) -> bool {
        self.position <= self.samples@.len()
    }

    /// Renders a melody and wraps the buffer in a cursor at the start.
    pub fn from_melody(melody: Melody) -> (r: MelodyAudio)
        requires
            melody.wf(),
        ensures
            r.samples@ == melody_samples_spec(
                melody.tones@,
                melody.sample_rate as int,
                melody.fade_permille as int,
            ),
            r.sample_rate == melody.sample_rate,
            r.position == 0,
            r.wf(),
    {
        let samples: Vec<i64> = render_melody(&melody);
        MelodyAudio { samples, sample_rate: melody.sample_rate, position: 0 }
    }

    /// The stream always carries exactly one channel.
    pub fn channels(&self) -> (c: u16)
        ensures
            c == 1,
    {
        1
    }

    /// Samples per second of the wrapped buffer.
    pub fn sample_rate(&self) -> (r: u32)
        ensures
            r == self.sample_rate,
    {
        self.sample_rate
    }

    /// The buffer is not organized into frames, so no frame length is
    /// reported.
    pub fn current_frame_len(&self) -> (r: Option<usize>)
        ensures
            r is None,
    {
        None
    }

    /// No total duration is reported; a playback collaborator treats the
    /// stream as open ended and stops at end-of-stream.
    pub fn total_duration_ms(&self) -> (r: Option<u64>)
        ensures
            r is None,
    {
        None
    }

    /// Pulls the next sample and advances the cursor.  Before the end it
    /// hands out exactly the sample under the cursor; at the end it answers
    /// "none" and stays exhausted: the cursor never moves again, so every
    /// further pull answers "none" too.
    pub fn next_sample(&mut self) -> (r: Option<i64>)
        requires
            old(self).wf(),
        ensures
            final(self).samples == old(self).samples,
            final(self).sample_rate == old(self).sample_rate,
            final(self).wf(),
            old(self).position < old(self).samples@.len() ==> r == Some(
                old(self).samples@[old(self).position as int],
            ) && final(self).position == old(self).position + 1,
            old(self).position >= old(self).samples@.len() ==> r is None && final(self).position
                == old(self).position,
    {
        if self.position >= self.samples.len() {
            return None;
        }
        let s: i64 = self.samples[self.position];
        self.position = self.position + 1;
        Some(s)
    }
}

} // verus!
