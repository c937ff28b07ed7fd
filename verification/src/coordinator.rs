//! The session coordinator: the state machine and phase protocol that
//! sequence one recording session through capture, resampling,
//! segmentation, transcription, optional refinement, and delivery.
//!
//! Exactly one session is active at a time: a start while not idle is
//! rejected, never queued.  The host performs the outside work of each
//! phase (the device stream, the sinc kernel, the voice-activity model,
//! the speech engine, the refinement call, the clipboard) and hands each
//! result back through one `submit_*` call; every decision about what
//! that result means for the session is made, and verified, here.  No
//! lock discipline is needed inside this crate: the coordinator is a
//! value the host guards for the brief synchronous calls, and it is
//! free of blocking work by construction.

use crate::capture::AudioCapture;
use crate::resample::{ResampleError, ResampleOutcome, Resampler, TARGET_SAMPLE_RATE};
use crate::segment::{segment_speech, spec_chunk_count, spec_extract};
use crate::text::{dec_rep, fmt_u64};
use vstd::prelude::*;

verus! {

/// The phase of a session being processed after its recording stopped.
#[derive(PartialEq, Eq, Structural, Clone, Copy, Debug)]
pub enum ProcessingPhase {
    Resampling,
    Segmenting,
    Transcribing,
    Refining,
    Delivering,
}

/// The lifecycle of the one session a process may run.
#[derive(PartialEq, Eq, Structural, Clone, Copy, Debug)]
pub enum SessionState {
    Idle,
    Recording,
    Processing(ProcessingPhase),
}

/// Lifecycle notifications, in the order the phases completed.  They are
/// appended, never reordered and never dropped, so an in-process
/// observer replays them exactly.
#[derive(Debug)]
pub enum LifecycleEvent {
    RecordingStarted,
    RecordingStopped,
    TranscriptionStarted,
    LlmRefinementStarted,
    LlmRefinementComplete(String),
    LlmRefinementFailed(String),
    TranscriptionComplete(String),
}

/// What a session command can fail with.
#[derive(Debug)]
pub enum SessionError {
    /// `start` while not idle: rejected, not queued.
    AlreadyRecording,
    /// `stop` while not recording.
    NotRecording,
    /// `stop` with an empty capture buffer.
    NoAudioCaptured,
    /// Degenerate input to the resampler; fatal to the session.
    ResampleFailed(ResampleError),
    /// The host's sample-rate converter failed; fatal to the session.
    ConversionFailed(String),
    /// The speech engine failed; fatal to the session.
    TranscriptionFailed(String),
    /// Delivery failed; the session still produced its text.
    DeliveryFailed(String),
}

/// What `toggle` did.
#[derive(PartialEq, Eq, Structural, Clone, Copy, Debug)]
pub enum ToggleOutcome {
    Started,
    Stopped,
}

/// The deterministic placeholder used when no speech engine is loaded:
/// it describes the capture by its sample count.
pub open spec fn spec_placeholder(n: nat) -> Seq<char> {
    "[デモモード] "@ + dec_rep(n) + "サンプルの音声を録音しました。モデルを読み込んでください。"@
}

/// What the working audio becomes when the host submits segmentation
/// labels: unfiltered when no labels came (classifier unavailable,
/// a non-fatal failure), otherwise the segmentation policy's result,
/// falling back to the unfiltered audio when that result is empty.
pub open spec fn spec_filtered(audio: Seq<u32>, labels: Option<Vec<bool>>) -> Seq<u32> {
    match labels {
        Option::None => audio,
        Option::Some(l) => {
            let f = spec_extract(audio, l@);
            if f.len() == 0 {
                audio
            } else {
                f
            }
        },
    }
}

/// The state machine that sequences one recording session.
pub struct SessionCoordinator {
    /// The session lifecycle; the only mutation is its transitions.
    pub state: SessionState,
    /// The live capture buffer, exclusively owned while Recording.
    pub capture: AudioCapture,
    /// Whether refinement runs after transcription.
    pub refinement_enabled: bool,
    /// Whether a speech engine is loaded; without one, a deterministic
    /// placeholder text stands in for the transcription.
    pub transcriber_ready: bool,
    /// Lifecycle notifications, oldest first.
    pub events: Vec<LifecycleEvent>,
    /// The audio being processed, as float bit patterns.
    pub audio: Vec<u32>,
    /// The rate to convert from while Resampling.
    pub pending_from: u32,
    /// The transcription (or placeholder) once Transcribing is done.
    pub raw_text: String,
    /// The text to deliver once Refining (if any) is done.
    pub final_text: String,
}

/// The configuration and observer fields a transition never touches.
pub open spec fn same_config(pre: SessionCoordinator, post: SessionCoordinator) -> bool {
    &&& post.refinement_enabled == pre.refinement_enabled
    &&& post.transcriber_ready == pre.transcriber_ready
}

/// The result `stop` returns, as a function of the state it ran in.
pub open spec fn spec_stop_result(pre: SessionCoordinator) -> Result<(), SessionError> {
    if pre.state != SessionState::Recording {
        Err(SessionError::NotRecording)
    } else if pre.capture.buffer@.len() == 0 {
        Err(SessionError::NoAudioCaptured)
    } else if pre.capture.sample_rate != TARGET_SAMPLE_RATE && pre.capture.sample_rate == 0 {
        Err(SessionError::ResampleFailed(ResampleError::ZeroRate))
    } else {
        Ok(())
    }
}

/// The state `stop` leaves behind, as a function of the state it ran in.
pub open spec fn spec_stop_state(pre: SessionCoordinator) -> SessionState {
    if pre.state != SessionState::Recording {
        pre.state
    } else if pre.capture.buffer@.len() == 0 {
        SessionState::Idle
    } else if pre.capture.sample_rate == TARGET_SAMPLE_RATE {
        SessionState::Processing(ProcessingPhase::Segmenting)
    } else if pre.capture.sample_rate == 0 {
        SessionState::Idle
    } else {
        SessionState::Processing(ProcessingPhase::Resampling)
    }
}

/// How `stop` relates the data fields of the state before to the state
/// after.
pub open spec fn spec_stop_data(pre: SessionCoordinator, post: SessionCoordinator) -> bool {
    &&& same_config(pre, post)
    &&& post.raw_text@ == pre.raw_text@
    &&& post.final_text@ == pre.final_text@
    &&& if pre.state != SessionState::Recording {
        post == pre
    } else {
        &&& post.events@ == pre.events@.push(LifecycleEvent::RecordingStopped)
        &&& post.capture.buffer@ == Seq::<u32>::empty()
        &&& post.capture.sample_rate == pre.capture.sample_rate
        &&& if pre.capture.buffer@.len() == 0 {
            post.audio@ == pre.audio@
        } else if pre.capture.sample_rate == 0 {
            // The degenerate-rate failure: the session aborts.
            true
        } else {
            &&& post.audio@ == pre.capture.buffer@
            &&& (pre.capture.sample_rate != TARGET_SAMPLE_RATE ==> post.pending_from
                == pre.capture.sample_rate)
        }
    }
}

impl SessionCoordinator {
    /// A coordinator at rest, before any session.
    pub fn new(refinement_enabled: bool, transcriber_ready: bool) -> (r: Self)
        ensures
            r.state == SessionState::Idle,
            r.refinement_enabled == refinement_enabled,
            r.transcriber_ready == transcriber_ready,
            r.events@ == Seq::<LifecycleEvent>::empty(),
            r.capture.buffer@ == Seq::<u32>::empty(),
            r.audio@ == Seq::<u32>::empty(),
            r.raw_text@ == Seq::<char>::empty(),
            r.final_text@ == Seq::<char>::empty(),
    {
        Self {
            state: SessionState::Idle,
            capture: AudioCapture::new(0),
            refinement_enabled,
            transcriber_ready,
            events: Vec::new(),
            audio: Vec::new(),
            pending_from: 0,
            raw_text: String::new(),
            final_text: String::new(),
        }
    }

    /// Begin a recording at the device's rate.  Rejected, with nothing
    /// changed and no stream to be opened, unless the coordinator is
    /// idle.
    pub fn start(&mut self, sample_rate: u32) -> (r: Result<(), SessionError>)
        ensures
            old(self).state != SessionState::Idle ==> (r matches Err(
                SessionError::AlreadyRecording,
            ) && *final(self) == *old(self)),
            old(self).state == SessionState::Idle ==> {
                &&& r matches Ok(())
                &&& final(self).state == SessionState::Recording
                &&& final(self).capture.buffer@ == Seq::<u32>::empty()
                &&& final(self).capture.sample_rate == sample_rate
                &&& final(self).events@ == old(self).events@.push(
                    LifecycleEvent::RecordingStarted,
                )
                &&& same_config(*old(self), *final(self))
                &&& final(self).audio@ == old(self).audio@
                &&& final(self).raw_text@ == old(self).raw_text@
                &&& final(self).final_text@ == old(self).final_text@
            },
    {
        if !matches!(self.state, SessionState::Idle) {
            return Err(SessionError::AlreadyRecording);
        }
        self.capture = AudioCapture::new(sample_rate);
        self.state = SessionState::Recording;
        self.events.push(LifecycleEvent::RecordingStarted);
        Ok(())
    }

    /// The host's device failed after `start`: fall back to idle.
    pub fn cancel_recording(&mut self) -> (r: Result<(), SessionError>)
        ensures
            old(self).state != SessionState::Recording ==> (r matches Err(
                SessionError::NotRecording,
            ) && *final(self) == *old(self)),
            old(self).state == SessionState::Recording ==> {
                &&& r matches Ok(())
                &&& final(self).state == SessionState::Idle
                &&& final(self).capture.buffer@ == Seq::<u32>::empty()
                &&& final(self).events@ == old(self).events@
                &&& same_config(*old(self), *final(self))
            },
    {
        if !matches!(self.state, SessionState::Recording) {
            return Err(SessionError::NotRecording);
        }
        self.capture.start_recording();
        self.state = SessionState::Idle;
        Ok(())
    }

    /// Append downmixed mono samples from the device callback.
    pub fn append_audio(&mut self, samples: &Vec<u32>)
        requires
            old(self).state == SessionState::Recording,
        ensures
            final(self).capture.buffer@ == old(self).capture.buffer@ + samples@,
            final(self).capture.sample_rate == old(self).capture.sample_rate,
            final(self).state == old(self).state,
            final(self).events@ == old(self).events@,
            same_config(*old(self), *final(self)),
            final(self).audio@ == old(self).audio@,
            final(self).raw_text@ == old(self).raw_text@,
            final(self).final_text@ == old(self).final_text@,
    {
        self.capture.append_samples(samples);
    }

    /// End the recording: take the snapshot, clear the live buffer, and
    /// decide the resampling phase.  Fails while not recording, on an
    /// empty capture, or on a degenerate rate; otherwise the session
    /// enters Processing, skipping the conversion when the capture rate
    /// is already the target rate.
    pub fn stop(&mut self) -> (r: Result<(), SessionError>)
        ensures
            r == spec_stop_result(*old(self)),
            final(self).state == spec_stop_state(*old(self)),
            spec_stop_data(*old(self), *final(self)),
    {
        if !matches!(self.state, SessionState::Recording) {
            return Err(SessionError::NotRecording);
        }
        let snapshot = self.capture.stop_recording();
        let sample_rate = self.capture.get_sample_rate();
        self.events.push(LifecycleEvent::RecordingStopped);
        if snapshot.len() == 0 {
            self.state = SessionState::Idle;
            return Err(SessionError::NoAudioCaptured);
        }
        let resampler = Resampler::new(TARGET_SAMPLE_RATE);
        match resampler.resample(&snapshot, sample_rate) {
            Ok(ResampleOutcome::Unchanged(samples)) => {
                self.audio = samples;
                self.state = SessionState::Processing(ProcessingPhase::Segmenting);
                Ok(())
            },
            Ok(ResampleOutcome::NeedsConversion { samples, from, to: _to }) => {
                self.audio = samples;
                self.pending_from = from;
                self.state = SessionState::Processing(ProcessingPhase::Resampling);
                Ok(())
            },
            Err(e) => {
                self.state = SessionState::Idle;
                Err(SessionError::ResampleFailed(e))
            },
        }
    }

    /// Dispatch to `start` or `stop` on the current state; the hotkey
    /// host calls this.  A toggle during Processing is rejected: only
    /// one session may be active.
    pub fn toggle(&mut self, sample_rate: u32) -> (r: Result<ToggleOutcome, SessionError>)
        ensures
            old(self).state matches SessionState::Processing(_) ==> r matches Err(
                SessionError::AlreadyRecording,
            ) && *final(self) == *old(self),
            old(self).state == SessionState::Idle ==> {
                &&& r matches Ok(ToggleOutcome::Started)
                &&& final(self).state == SessionState::Recording
                &&& final(self).capture.buffer@ == Seq::<u32>::empty()
                &&& final(self).capture.sample_rate == sample_rate
                &&& final(self).events@ == old(self).events@.push(
                    LifecycleEvent::RecordingStarted,
                )
                &&& same_config(*old(self), *final(self))
            },
            old(self).state == SessionState::Recording ==> {
                &&& final(self).state == spec_stop_state(*old(self))
                &&& spec_stop_data(*old(self), *final(self))
                &&& (spec_stop_result(*old(self)) matches Ok(()) ==> r matches Ok(
                    ToggleOutcome::Stopped,
                ))
                &&& (spec_stop_result(*old(self)) matches Err(e) ==> r == Err::<
                    ToggleOutcome,
                    SessionError,
                >(e))
            },
    {
        match self.state {
            SessionState::Idle => {
                match self.start(sample_rate) {
                    Ok(()) => Ok(ToggleOutcome::Started),
                    Err(e) => Err(e),
                }
            },
            SessionState::Recording => {
                match self.stop() {
                    Ok(()) => Ok(ToggleOutcome::Stopped),
                    Err(e) => Err(e),
                }
            },
            SessionState::Processing(_) => Err(SessionError::AlreadyRecording),
        }
    }

    /// The conversion the host must run while Resampling: the samples
    /// and the two rates.
    pub fn resample_job(&self) -> (r: Option<(Vec<u32>, u32, u32)>)
        ensures
            self.state == SessionState::Processing(ProcessingPhase::Resampling) ==> (r matches Some(
                (s, from, to),
            ) && s@ == self.audio@ && from == self.pending_from && to == TARGET_SAMPLE_RATE),
            self.state != SessionState::Processing(ProcessingPhase::Resampling) ==> r is None,
    {
        if matches!(self.state, SessionState::Processing(ProcessingPhase::Resampling)) {
            Some((self.audio.clone(), self.pending_from, TARGET_SAMPLE_RATE))
        } else {
            None
        }
    }

    /// The audio the current phase works on.
    pub fn pending_audio(&self) -> (r: Vec<u32>)
        ensures
            r@ == self.audio@,
    {
        self.audio.clone()
    }

    /// The host ran the sinc kernel: take the converted samples, or the
    /// failure, which is fatal to the session.
    pub fn submit_resampled(&mut self, outcome: Result<Vec<u32>, String>) -> (r: Result<
        (),
        SessionError,
    >)
        requires
            old(self).state == SessionState::Processing(ProcessingPhase::Resampling),
        ensures
            same_config(*old(self), *final(self)),
            final(self).events@ == old(self).events@,
            final(self).raw_text@ == old(self).raw_text@,
            final(self).final_text@ == old(self).final_text@,
            outcome matches Ok(samples) ==> {
                &&& r matches Ok(())
                &&& final(self).state == SessionState::Processing(ProcessingPhase::Segmenting)
                &&& final(self).audio@ == samples@
            },
            outcome matches Err(m) ==> {
                &&& r == Err::<(), SessionError>(SessionError::ConversionFailed(m))
                &&& final(self).state == SessionState::Idle
                &&& final(self).audio@ == old(self).audio@
            },
    {
        match outcome {
            Ok(samples) => {
                self.audio = samples;
                self.state = SessionState::Processing(ProcessingPhase::Segmenting);
                Ok(())
            },
            Err(m) => {
                self.state = SessionState::Idle;
                Err(SessionError::ConversionFailed(m))
            },
        }
    }

    /// The host classified the complete chunks of the working audio (or
    /// could not: `None`, a non-fatal degradation that keeps the audio
    /// unfiltered).  The verified segmentation policy is applied, a
    /// silent-looking result falls back to the unfiltered audio, the
    /// transcription phase is announced, and when no speech engine is
    /// loaded the placeholder text stands in and the phase is skipped.
    pub fn submit_labels(&mut self, labels: Option<Vec<bool>>) -> (r: Result<(), SessionError>)
        requires
            old(self).state == SessionState::Processing(ProcessingPhase::Segmenting),
            labels matches Some(l) ==> l@.len() == spec_chunk_count(old(self).audio@.len()),
        ensures
            r matches Ok(()),
            same_config(*old(self), *final(self)),
            final(self).audio@ == spec_filtered(old(self).audio@, labels),
            final(self).capture == old(self).capture,
            old(self).transcriber_ready ==> {
                &&& final(self).state == SessionState::Processing(ProcessingPhase::Transcribing)
                &&& final(self).events@ == old(self).events@.push(
                    LifecycleEvent::TranscriptionStarted,
                )
                &&& final(self).raw_text@ == old(self).raw_text@
                &&& final(self).final_text@ == old(self).final_text@
            },
            !old(self).transcriber_ready ==> {
                &&& final(self).raw_text@ == spec_placeholder(
                    spec_filtered(old(self).audio@, labels).len(),
                )
                &&& spec_after_transcription(
                    *old(self),
                    *final(self),
                    old(self).events@.push(LifecycleEvent::TranscriptionStarted),
                    spec_placeholder(spec_filtered(old(self).audio@, labels).len()),
                )
            },
    {
        match labels {
            Some(l) => {
                let filtered = segment_speech(&self.audio, &l);
                if filtered.len() > 0 {
                    self.audio = filtered;
                }
            },
            None => {},
        }
        self.events.push(LifecycleEvent::TranscriptionStarted);
        if self.transcriber_ready {
            self.state = SessionState::Processing(ProcessingPhase::Transcribing);
        } else {
            let n: usize = self.audio.len();
            let mut text = "[デモモード] ".to_owned();
            text.append(fmt_u64(n as u64).as_str());
            text.append("サンプルの音声を録音しました。モデルを読み込んでください。");
            proof {
                assert(text@ =~= spec_placeholder(n as nat));
            }
            self.raw_text = text;
            self.advance_after_transcription();
        }
        Ok(())
    }

    /// The speech engine answered: take its text, or its failure, which
    /// is fatal to the session.
    pub fn submit_transcription(&mut self, outcome: Result<String, String>) -> (r: Result<
        (),
        SessionError,
    >)
        requires
            old(self).state == SessionState::Processing(ProcessingPhase::Transcribing),
        ensures
            same_config(*old(self), *final(self)),
            outcome matches Err(m) ==> {
                &&& r == Err::<(), SessionError>(SessionError::TranscriptionFailed(m))
                &&& final(self).state == SessionState::Idle
                &&& final(self).events@ == old(self).events@
                &&& final(self).raw_text@ == old(self).raw_text@
                &&& final(self).final_text@ == old(self).final_text@
            },
            outcome matches Ok(t) ==> {
                &&& r matches Ok(())
                &&& final(self).raw_text@ == t@
                &&& spec_after_transcription(*old(self), *final(self), old(self).events@, t@)
            },
    {
        match outcome {
            Ok(t) => {
                self.raw_text = t;
                self.advance_after_transcription();
                Ok(())
            },
            Err(m) => {
                self.state = SessionState::Idle;
                Err(SessionError::TranscriptionFailed(m))
            },
        }
    }

    /// Once the raw text exists: announce refinement and wait for the
    /// host when refinement is enabled, else the raw text is final and
    /// the session moves to delivery.
    fn advance_after_transcription(&mut self)
        ensures
            same_config(*old(self), *final(self)),
            final(self).raw_text@ == old(self).raw_text@,
            final(self).audio@ == old(self).audio@,
            final(self).capture == old(self).capture,
            spec_after_transcription(*old(self), *final(self), old(self).events@, old(
                self,
            ).raw_text@),
    {
        if self.refinement_enabled {
            self.events.push(LifecycleEvent::LlmRefinementStarted);
            self.state = SessionState::Processing(ProcessingPhase::Refining);
        } else {
            self.final_text = self.raw_text.clone();
            self.state = SessionState::Processing(ProcessingPhase::Delivering);
        }
    }

    /// The refinement service answered.  Failure is non-fatal: the raw
    /// transcription is kept, a failure event is emitted, and the
    /// session moves on to delivery either way.
    pub fn submit_refinement(&mut self, outcome: Result<String, String>) -> (r: Result<
        (),
        SessionError,
    >)
        requires
            old(self).state == SessionState::Processing(ProcessingPhase::Refining),
        ensures
            r matches Ok(()),
            same_config(*old(self), *final(self)),
            final(self).state == SessionState::Processing(ProcessingPhase::Delivering),
            final(self).raw_text@ == old(self).raw_text@,
            final(self).audio@ == old(self).audio@,
            outcome matches Ok(t) ==> {
                &&& final(self).final_text@ == t@
                &&& final(self).events@ == old(self).events@.push(
                    LifecycleEvent::LlmRefinementComplete(t),
                )
            },
            outcome matches Err(m) ==> {
                &&& final(self).final_text@ == old(self).raw_text@
                &&& final(self).events@ == old(self).events@.push(
                    LifecycleEvent::LlmRefinementFailed(m),
                )
            },
    {
        match outcome {
            Ok(t) => {
                self.final_text = t.clone();
                self.events.push(LifecycleEvent::LlmRefinementComplete(t));
            },
            Err(m) => {
                self.final_text = self.raw_text.clone();
                self.events.push(LifecycleEvent::LlmRefinementFailed(m));
            },
        }
        self.state = SessionState::Processing(ProcessingPhase::Delivering);
        Ok(())
    }

    /// The host delivered (clipboard, paste, log).  On success the
    /// completion event carries the delivered text, exactly once per
    /// session, and the coordinator is idle again; a delivery failure is
    /// surfaced, though the text was produced.
    pub fn submit_delivery(&mut self, outcome: Result<(), String>) -> (r: Result<
        String,
        SessionError,
    >)
        requires
            old(self).state == SessionState::Processing(ProcessingPhase::Delivering),
        ensures
            same_config(*old(self), *final(self)),
            final(self).state == SessionState::Idle,
            final(self).raw_text@ == old(self).raw_text@,
            final(self).final_text@ == old(self).final_text@,
            outcome matches Ok(()) ==> {
                &&& (r matches Ok(t) && t@ == old(self).final_text@)
                &&& final(self).events@ == old(self).events@.push(
                    LifecycleEvent::TranscriptionComplete(old(self).final_text),
                )
            },
            outcome matches Err(m) ==> {
                &&& r == Err::<String, SessionError>(SessionError::DeliveryFailed(m))
                &&& final(self).events@ == old(self).events@
            },
    {
        self.state = SessionState::Idle;
        match outcome {
            Ok(()) => {
                self.events.push(LifecycleEvent::TranscriptionComplete(self.final_text.clone()));
                Ok(self.final_text.clone())
            },
            Err(m) => Err(SessionError::DeliveryFailed(m)),
        }
    }
}

/// What holds right after the raw text of a session is fixed: with
/// refinement enabled the refinement phase is announced and awaited;
/// without it the raw text is the final text and delivery is next.
pub open spec fn spec_after_transcription(
    pre: SessionCoordinator,
    post: SessionCoordinator,
    events_before: Seq<LifecycleEvent>,
    raw: Seq<char>,
) -> bool {
    if pre.refinement_enabled {
        &&& post.state == SessionState::Processing(ProcessingPhase::Refining)
        &&& post.events@ == events_before.push(LifecycleEvent::LlmRefinementStarted)
        &&& post.final_text@ == pre.final_text@
    } else {
        &&& post.state == SessionState::Processing(ProcessingPhase::Delivering)
        &&& post.events@ == events_before
        &&& post.final_text@ == raw
    }
}

} // verus!
