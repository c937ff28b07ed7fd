//! The session state machine: rejection of overlapping sessions, the
//! full pipeline cycle with its event order, and the refinement
//! fallback.

use rubato::{
    Async, FixedAsync, Resampler as _, SincInterpolationParameters, SincInterpolationType,
    WindowFunction,
};
use voice_input::coordinator::{
    LifecycleEvent, ProcessingPhase, SessionCoordinator, SessionError, SessionState, ToggleOutcome,
};
use voice_input::segment::CHUNK_SIZE;

/// The host-side windowed-sinc conversion, as the application performs
/// it between `stop` and `submit_resampled`.
fn sinc_resample(samples: &[f32], from: u32, to: u32) -> Result<Vec<f32>, String> {
    let params = SincInterpolationParameters {
        sinc_len: 256,
        f_cutoff: Some(0.95),
        interpolation: SincInterpolationType::Linear,
        oversampling_factor: 256,
        window: WindowFunction::BlackmanHarris2,
    };
    let chunk = samples.len();
    let mut rs = Async::<f32>::new_sinc(
        to as f64 / from as f64,
        2.0,
        &params,
        chunk,
        1,
        FixedAsync::Input,
    )
    .map_err(|e| e.to_string())?;
    let input = vec![samples.to_vec()];
    let adapter = rubato::audioadapter_buffers::direct::SequentialSliceOfVecs::new(&input, 1, chunk)
        .map_err(|e| e.to_string())?;
    let out = rs.process(&adapter, None).map_err(|e| e.to_string())?;
    Ok(out.take_data())
}

fn tone_bits(seconds: u32, rate: u32) -> Vec<u32> {
    (0..seconds * rate)
        .map(|i| ((i as f32 * 0.05).sin() * 0.5).to_bits())
        .collect()
}

#[test]
fn test_start_twice_rejected() {
    // A second start without an intervening stop is rejected and
    // nothing changes, so no second device stream is opened.
    let mut c = SessionCoordinator::new(false, true);
    assert!(c.start(48000).is_ok());
    assert_eq!(c.state, SessionState::Recording);
    let events_before = c.events.len();
    assert!(matches!(c.start(48000), Err(SessionError::AlreadyRecording)));
    assert_eq!(c.state, SessionState::Recording);
    assert_eq!(c.events.len(), events_before);
}

#[test]
fn test_stop_while_idle_rejected() {
    let mut c = SessionCoordinator::new(false, true);
    assert!(matches!(c.stop(), Err(SessionError::NotRecording)));
    assert_eq!(c.state, SessionState::Idle);
    assert!(c.events.is_empty());
}

#[test]
fn test_stop_without_audio_rejected() {
    let mut c = SessionCoordinator::new(false, true);
    c.start(48000).unwrap();
    assert!(matches!(c.stop(), Err(SessionError::NoAudioCaptured)));
    assert_eq!(c.state, SessionState::Idle);
}

#[test]
fn test_full_cycle_end_to_end() {
    // Capture a 2 s tone at 48 kHz, convert to 16 kHz, segment with the
    // tone classified as speech, transcribe with a stub returning
    // "test", refinement disabled: the delivered text is "test" and
    // transcription-complete fires exactly once, with that payload.
    let mut c = SessionCoordinator::new(false, true);
    c.start(48000).unwrap();
    let samples = tone_bits(2, 48000);
    c.append_audio(&samples);
    c.stop().unwrap();
    assert_eq!(c.state, SessionState::Processing(ProcessingPhase::Resampling));

    let (bits, from, to) = c.resample_job().unwrap();
    assert_eq!((from, to), (48000, 16000));
    let floats: Vec<f32> = bits.iter().map(|b| f32::from_bits(*b)).collect();
    let converted = sinc_resample(&floats, from, to).unwrap();
    let converted_bits: Vec<u32> = converted.iter().map(|s| s.to_bits()).collect();
    c.submit_resampled(Ok(converted_bits)).unwrap();
    assert_eq!(c.state, SessionState::Processing(ProcessingPhase::Segmenting));

    // The tone simulates speech: every complete chunk is classified
    // speech, so the mostly-speech bypass keeps the audio whole.
    let audio = c.pending_audio();
    let labels = vec![true; audio.len() / CHUNK_SIZE];
    c.submit_labels(Some(labels)).unwrap();
    assert_eq!(c.state, SessionState::Processing(ProcessingPhase::Transcribing));
    assert_eq!(c.pending_audio(), audio);

    c.submit_transcription(Ok("test".to_string())).unwrap();
    assert_eq!(c.state, SessionState::Processing(ProcessingPhase::Delivering));

    let delivered = c.submit_delivery(Ok(())).unwrap();
    assert_eq!(delivered, "test");
    assert_eq!(c.state, SessionState::Idle);

    assert_eq!(c.events.len(), 4);
    assert!(matches!(c.events[0], LifecycleEvent::RecordingStarted));
    assert!(matches!(c.events[1], LifecycleEvent::RecordingStopped));
    assert!(matches!(c.events[2], LifecycleEvent::TranscriptionStarted));
    match &c.events[3] {
        LifecycleEvent::TranscriptionComplete(t) => assert_eq!(t, "test"),
        other => panic!("expected the completion event, got {:?}", other),
    }
    let completions = c
        .events
        .iter()
        .filter(|e| matches!(e, LifecycleEvent::TranscriptionComplete(_)))
        .count();
    assert_eq!(completions, 1);
}

#[test]
fn test_refinement_failure_keeps_raw_text() {
    // An unreachable refinement endpoint is non-fatal: the session
    // completes with the pre-refinement text and a refinement-failed
    // event, not a session failure.
    let mut c = SessionCoordinator::new(true, true);
    c.start(16000).unwrap();
    let samples = vec![0x3F000000u32; CHUNK_SIZE * 4];
    c.append_audio(&samples);
    c.stop().unwrap();
    // Already at the target rate: no conversion phase.
    assert_eq!(c.state, SessionState::Processing(ProcessingPhase::Segmenting));
    c.submit_labels(Some(vec![true; 4])).unwrap();
    c.submit_transcription(Ok("raw words".to_string())).unwrap();
    assert_eq!(c.state, SessionState::Processing(ProcessingPhase::Refining));

    c.submit_refinement(Err("connection refused".to_string())).unwrap();
    assert_eq!(c.state, SessionState::Processing(ProcessingPhase::Delivering));
    let delivered = c.submit_delivery(Ok(())).unwrap();
    assert_eq!(delivered, "raw words");

    assert!(c
        .events
        .iter()
        .any(|e| matches!(e, LifecycleEvent::LlmRefinementFailed(_))));
    assert!(!c
        .events
        .iter()
        .any(|e| matches!(e, LifecycleEvent::LlmRefinementComplete(_))));
}

#[test]
fn test_refinement_success_replaces_text() {
    let mut c = SessionCoordinator::new(true, true);
    c.start(16000).unwrap();
    c.append_audio(&vec![7u32; CHUNK_SIZE]);
    c.stop().unwrap();
    c.submit_labels(None).unwrap();
    c.submit_transcription(Ok("rough".to_string())).unwrap();
    c.submit_refinement(Ok("polished".to_string())).unwrap();
    let delivered = c.submit_delivery(Ok(())).unwrap();
    assert_eq!(delivered, "polished");
    assert!(c
        .events
        .iter()
        .any(|e| matches!(e, LifecycleEvent::LlmRefinementComplete(t) if t == "polished")));
}

#[test]
fn test_placeholder_without_engine() {
    // With no speech engine loaded, a deterministic placeholder naming
    // the sample count stands in and the transcribing phase is skipped.
    let mut c = SessionCoordinator::new(false, false);
    c.start(16000).unwrap();
    let n = CHUNK_SIZE * 2;
    c.append_audio(&vec![1u32; n]);
    c.stop().unwrap();
    c.submit_labels(None).unwrap();
    assert_eq!(c.state, SessionState::Processing(ProcessingPhase::Delivering));
    let delivered = c.submit_delivery(Ok(())).unwrap();
    assert_eq!(
        delivered,
        format!("[デモモード] {}サンプルの音声を録音しました。モデルを読み込んでください。", n)
    );
}

#[test]
fn test_transcription_failure_is_fatal() {
    let mut c = SessionCoordinator::new(false, true);
    c.start(16000).unwrap();
    c.append_audio(&vec![7u32; CHUNK_SIZE]);
    c.stop().unwrap();
    c.submit_labels(None).unwrap();
    let r = c.submit_transcription(Err("model exploded".to_string()));
    assert!(matches!(r, Err(SessionError::TranscriptionFailed(_))));
    assert_eq!(c.state, SessionState::Idle);
}

#[test]
fn test_delivery_failure_surfaced() {
    let mut c = SessionCoordinator::new(false, true);
    c.start(16000).unwrap();
    c.append_audio(&vec![7u32; CHUNK_SIZE]);
    c.stop().unwrap();
    c.submit_labels(None).unwrap();
    c.submit_transcription(Ok("kept".to_string())).unwrap();
    let r = c.submit_delivery(Err("no clipboard".to_string()));
    assert!(matches!(r, Err(SessionError::DeliveryFailed(_))));
    assert_eq!(c.state, SessionState::Idle);
    // The completion event never fired.
    assert!(!c
        .events
        .iter()
        .any(|e| matches!(e, LifecycleEvent::TranscriptionComplete(_))));
}

#[test]
fn test_toggle_dispatches() {
    let mut c = SessionCoordinator::new(false, true);
    assert_eq!(c.toggle(16000).unwrap(), ToggleOutcome::Started);
    assert_eq!(c.state, SessionState::Recording);
    c.append_audio(&vec![7u32; CHUNK_SIZE]);
    assert_eq!(c.toggle(16000).unwrap(), ToggleOutcome::Stopped);
    assert!(matches!(c.state, SessionState::Processing(_)));
    // Only one session may be active: a toggle during processing is
    // rejected.
    assert!(matches!(c.toggle(16000), Err(SessionError::AlreadyRecording)));
}

#[test]
fn test_cancel_recording() {
    let mut c = SessionCoordinator::new(false, true);
    c.start(16000).unwrap();
    c.cancel_recording().unwrap();
    assert_eq!(c.state, SessionState::Idle);
    assert!(matches!(
        c.cancel_recording(),
        Err(SessionError::NotRecording)
    ));
}

#[test]
fn test_empty_segmentation_falls_back_to_unfiltered() {
    // When the segmenter reports no speech at all, the unfiltered audio
    // is kept rather than transcribing nothing.
    let mut c = SessionCoordinator::new(false, true);
    c.start(16000).unwrap();
    let samples = vec![0u32; CHUNK_SIZE * 3];
    c.append_audio(&samples);
    c.stop().unwrap();
    c.submit_labels(Some(vec![false; 3])).unwrap();
    assert_eq!(c.pending_audio(), samples);
}

#[test]
fn test_degenerate_rate_is_fatal() {
    // A device rate of zero makes the conversion ratio meaningless:
    // the session aborts once stopped.
    let mut c = SessionCoordinator::new(false, true);
    c.start(0).unwrap();
    c.append_audio(&vec![7u32; 8]);
    assert!(matches!(c.stop(), Err(SessionError::ResampleFailed(_))));
    assert_eq!(c.state, SessionState::Idle);
}

#[test]
fn test_host_conversion_failure_is_fatal() {
    let mut c = SessionCoordinator::new(false, true);
    c.start(48000).unwrap();
    c.append_audio(&vec![7u32; 8]);
    c.stop().unwrap();
    assert_eq!(c.state, SessionState::Processing(ProcessingPhase::Resampling));
    let r = c.submit_resampled(Err("kernel failed".to_string()));
    assert!(matches!(r, Err(SessionError::ConversionFailed(_))));
    assert_eq!(c.state, SessionState::Idle);
}
