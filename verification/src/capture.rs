//! The capture-side sample buffer.
//!
//! The host owns the real input device and its stream; it downmixes each
//! hardware frame to one mono sample and hands the samples here.  This
//! module guarantees the buffering discipline: between a start and a
//! stop no sample is lost, duplicated or reordered, the snapshot taken
//! at stop is exactly what was appended since the start, and the live
//! buffer is cleared when the snapshot is handed off.

use vstd::prelude::*;

verus! {

/// The exclusively-owned buffer of one recording, with the rate its
/// samples were captured at.  Samples are the bit patterns of 32-bit
/// float mono samples; this crate never interprets them numerically.
pub struct AudioCapture {
    pub buffer: Vec<u32>,
    pub sample_rate: u32,
}

impl AudioCapture {
    /// An empty capture buffer for a device running at `sample_rate`.
    pub fn new(sample_rate: u32) -> (r: Self)
        ensures
            r.buffer@ == Seq::<u32>::empty(),
            r.sample_rate == sample_rate,
    {
        Self { buffer: Vec::new(), sample_rate }
    }

    /// Begin a recording: the buffer of any earlier session is dropped.
    pub fn start_recording(&mut self)
        ensures
            final(self).buffer@ == Seq::<u32>::empty(),
            final(self).sample_rate == old(self).sample_rate,
    {
        self.buffer.clear();
    }

    /// Append one batch of downmixed mono samples, in capture order.
    pub fn append_samples(&mut self, samples: &Vec<u32>)
        ensures
            final(self).buffer@ == old(self).buffer@ + samples@,
            final(self).sample_rate == old(self).sample_rate,
    {
        let mut i: usize = 0;
        while i < samples.len()
            invariant
                i <= samples@.len(),
                self.buffer@ == old(self).buffer@ + samples@.take(i as int),
                self.sample_rate == old(self).sample_rate,
            decreases samples@.len() - i,
        {
            self.buffer.push(samples[i]);
            proof {
                assert(self.buffer@ =~= old(self).buffer@ + samples@.take(i + 1));
            }
            i = i + 1;
        }
        proof {
            assert(self.buffer@ =~= old(self).buffer@ + samples@);
        }
    }

    /// End the recording: every sample captured since the start comes
    /// back, in order, and the live buffer is cleared for the next
    /// session.
    pub fn stop_recording(&mut self) -> (snapshot: Vec<u32>)
        ensures
            snapshot@ == old(self).buffer@,
            final(self).buffer@ == Seq::<u32>::empty(),
            final(self).sample_rate == old(self).sample_rate,
    {
        let mut snapshot: Vec<u32> = Vec::new();
        core::mem::swap(&mut snapshot, &mut self.buffer);
        snapshot
    }

    /// The rate the samples were captured at, in Hz.
    pub fn get_sample_rate(&self) -> (r: u32)
        ensures
            r == self.sample_rate,
    {
        self.sample_rate
    }
}

} // verus!
