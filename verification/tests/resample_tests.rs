//! The resampler's dispatch contract, and the host-side sinc conversion
//! it hands work to.

use rubato::{
    Async, FixedAsync, Resampler as _, SincInterpolationParameters, SincInterpolationType,
    WindowFunction,
};
use voice_input::resample::{ResampleError, ResampleOutcome, Resampler, TARGET_SAMPLE_RATE};

/// The host-side windowed-sinc conversion: a fixed-quality kernel, one
/// whole-buffer chunk, mono.
fn sinc_resample(samples: &[f32], from: u32, to: u32) -> Result<Vec<f32>, String> {
    let params = SincInterpolationParameters {
        sinc_len: 256,
        f_cutoff: Some(0.95),
        interpolation: SincInterpolationType::Linear,
        oversampling_factor: 256,
        window: WindowFunction::BlackmanHarris2,
    };
    let chunk = samples.len();
    let mut rs = Async::<f32>::new_sinc(
        to as f64 / from as f64,
        2.0,
        &params,
        chunk,
        1,
        FixedAsync::Input,
    )
    .map_err(|e| e.to_string())?;
    let input = vec![samples.to_vec()];
    let adapter = rubato::audioadapter_buffers::direct::SequentialSliceOfVecs::new(&input, 1, chunk)
        .map_err(|e| e.to_string())?;
    let out = rs.process(&adapter, None).map_err(|e| e.to_string())?;
    Ok(out.take_data())
}

#[test]
fn test_resample_48k_to_16k() {
    let input: Vec<f32> = (0..48000).map(|i| (i as f32 * 0.001).sin()).collect();

    let resampler = Resampler::new(16000);
    let bits: Vec<u32> = input.iter().map(|s| s.to_bits()).collect();
    let job = resampler.resample(&bits, 48000).unwrap();
    let (samples, from, to) = match job {
        ResampleOutcome::NeedsConversion { samples, from, to } => (samples, from, to),
        ResampleOutcome::Unchanged(_) => panic!("different rates need a conversion"),
    };
    assert_eq!(from, 48000);
    assert_eq!(to, 16000);
    let floats: Vec<f32> = samples.iter().map(|b| f32::from_bits(*b)).collect();
    let output = sinc_resample(&floats, from, to).unwrap();

    // Output should be approximately 1/3 the length.
    assert!((output.len() as f32 - 16000.0).abs() < 100.0);
}

#[test]
fn test_resample_identity_same_rate() {
    let resampler = Resampler::new(TARGET_SAMPLE_RATE);
    let input: Vec<u32> = vec![0, 1, 0x3F800000, 0xBF800000, 42];
    match resampler.resample(&input, TARGET_SAMPLE_RATE).unwrap() {
        ResampleOutcome::Unchanged(v) => assert_eq!(v, input),
        _ => panic!("equal rates must be the identity"),
    }
}

#[test]
fn test_resample_identity_empty_same_rate() {
    let resampler = Resampler::new(44100);
    let input: Vec<u32> = Vec::new();
    match resampler.resample(&input, 44100).unwrap() {
        ResampleOutcome::Unchanged(v) => assert!(v.is_empty()),
        _ => panic!("equal rates must be the identity"),
    }
}

#[test]
fn test_resample_empty_input_is_degenerate() {
    let resampler = Resampler::new(16000);
    let input: Vec<u32> = Vec::new();
    assert!(matches!(
        resampler.resample(&input, 48000),
        Err(ResampleError::EmptyInput)
    ));
}

#[test]
fn test_resample_zero_rate_is_degenerate() {
    let resampler = Resampler::new(16000);
    let input: Vec<u32> = vec![1, 2, 3];
    assert!(matches!(
        resampler.resample(&input, 0),
        Err(ResampleError::ZeroRate)
    ));
}

#[test]
fn test_resample_conversion_carries_input_exactly() {
    let resampler = Resampler::new(16000);
    let input: Vec<u32> = (0..1000).collect();
    match resampler.resample(&input, 44100).unwrap() {
        ResampleOutcome::NeedsConversion { samples, from, to } => {
            assert_eq!(samples, input);
            assert_eq!(from, 44100);
            assert_eq!(to, 16000);
        }
        _ => panic!("different rates need a conversion"),
    }
}
