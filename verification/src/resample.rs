//! Deterministic sample-rate conversion dispatch.
//!
//! Samples travel through the pipeline as the bit patterns of 32-bit
//! IEEE floats, which this crate never interprets numerically.  The
//! windowed-sinc kernel itself is floating-point work done by the host;
//! this module decides, exactly, what the host must do: nothing when the
//! rates already agree (the identity case), a conversion job otherwise,
//! or a degenerate-input error.

use vstd::prelude::*;

verus! {

/// The fixed rate the pipeline converts to before recognition, in Hz.
pub const TARGET_SAMPLE_RATE: u32 = 16000;

/// What `resample` decided.
pub enum ResampleOutcome {
    /// The rates agree: the samples are returned unchanged.
    Unchanged(Vec<u32>),
    /// The host must run the sinc kernel over these samples.
    NeedsConversion { samples: Vec<u32>, from: u32, to: u32 },
}

/// Degenerate input that makes the conversion ratio or chunk size
/// meaningless; fatal to the session.
#[derive(PartialEq, Eq, Structural, Clone, Copy, Debug)]
pub enum ResampleError {
    EmptyInput,
    ZeroRate,
}

/// Converts capture-rate audio to a fixed target rate.
pub struct Resampler {
    pub target_sample_rate: u32,
}

impl Resampler {
    /// A resampler aiming at `target_sample_rate`.
    pub fn new(target_sample_rate: u32) -> (r: Self)
        ensures
            r.target_sample_rate == target_sample_rate,
    {
        Self { target_sample_rate }
    }

    /// Decide the conversion for one buffer captured at
    /// `input_sample_rate`.  Equal rates are the identity: the input
    /// comes back unchanged, bit for bit.  Otherwise an empty buffer or
    /// a zero rate is degenerate, and anything else is a conversion job
    /// carrying exactly the input and the two rates.
    pub fn resample(&self, input: &Vec<u32>, input_sample_rate: u32) -> (r: Result<
        ResampleOutcome,
        ResampleError,
    >)
        ensures
            input_sample_rate == self.target_sample_rate ==> (r matches Ok(
                ResampleOutcome::Unchanged(v),
            ) && v@ == input@),
            input_sample_rate != self.target_sample_rate && input@.len() == 0 ==> r == Err::<
                ResampleOutcome,
                ResampleError,
            >(ResampleError::EmptyInput),
            input_sample_rate != self.target_sample_rate && input@.len() > 0 && (
            input_sample_rate == 0 || self.target_sample_rate == 0) ==> r == Err::<
                ResampleOutcome,
                ResampleError,
            >(ResampleError::ZeroRate),
            input_sample_rate != self.target_sample_rate && input@.len() > 0 && input_sample_rate
                != 0 && self.target_sample_rate != 0 ==> (r matches Ok(
                ResampleOutcome::NeedsConversion { samples, from, to },
            ) && samples@ == input@ && from == input_sample_rate && to == self.target_sample_rate),
    {
        if input_sample_rate == self.target_sample_rate {
            return Ok(ResampleOutcome::Unchanged(input.clone()));
        }
        if input.len() == 0 {
            return Err(ResampleError::EmptyInput);
        }
        if input_sample_rate == 0 || self.target_sample_rate == 0 {
            return Err(ResampleError::ZeroRate);
        }
        Ok(ResampleOutcome::NeedsConversion {
            samples: input.clone(),
            from: input_sample_rate,
            to: self.target_sample_rate,
        })
    }
}

} // verus!
