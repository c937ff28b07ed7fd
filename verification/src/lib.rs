//! Verified core of a push-to-talk voice transcription pipeline.
//!
//! The crate models the recording session pipeline: capture buffering,
//! deterministic resampling dispatch, heuristic speech segmentation,
//! the session state machine with its lifecycle events, text refinement
//! bookkeeping, configuration, and the transcription log.  Work that is
//! inherently floating point or I/O bound (the sinc kernel, the
//! voice-activity model, the speech engine, devices, network, disk) is
//! done by the host around this crate, which hands plain values in and
//! out of the verified logic.

pub mod capture;
pub mod config;
pub mod coordinator;
pub mod llm;
pub mod log;
pub mod resample;
pub mod segment;
pub mod shortcuts;
pub mod text;
pub mod tray;

use vstd::prelude::*;

verus! {

/// Spec view of the catalogue entry names.
pub open spec fn spec_model_url(name: Seq<char>) -> Option<Seq<char>> {
    if name == "large-v3-turbo-q8_0"@ {
        Some("https://huggingface.co/ggerganov/whisper.cpp/resolve/main/ggml-large-v3-turbo-q8_0.bin"@)
    } else if name == "large-v3-turbo"@ {
        Some("https://huggingface.co/ggerganov/whisper.cpp/resolve/main/ggml-large-v3-turbo.bin"@)
    } else if name == "medium"@ {
        Some("https://huggingface.co/ggerganov/whisper.cpp/resolve/main/ggml-medium.bin"@)
    } else if name == "small"@ {
        Some("https://huggingface.co/ggerganov/whisper.cpp/resolve/main/ggml-small.bin"@)
    } else if name == "base"@ {
        Some("https://huggingface.co/ggerganov/whisper.cpp/resolve/main/ggml-base.bin"@)
    } else if name == "tiny"@ {
        Some("https://huggingface.co/ggerganov/whisper.cpp/resolve/main/ggml-tiny.bin"@)
    } else {
        None
    }
}

/// Spec view of the catalogue entry file names.
pub open spec fn spec_model_filename(name: Seq<char>) -> Option<Seq<char>> {
    if name == "large-v3-turbo-q8_0"@ {
        Some("ggml-large-v3-turbo-q8_0.bin"@)
    } else if name == "large-v3-turbo"@ {
        Some("ggml-large-v3-turbo.bin"@)
    } else if name == "medium"@ {
        Some("ggml-medium.bin"@)
    } else if name == "small"@ {
        Some("ggml-small.bin"@)
    } else if name == "base"@ {
        Some("ggml-base.bin"@)
    } else if name == "tiny"@ {
        Some("ggml-tiny.bin"@)
    } else {
        None
    }
}

/// Download location for a recognition model, by catalogue name.
pub fn get_model_url(model_name: &str) -> (r: Option<&'static str>)
    ensures
        r matches Some(u) ==> spec_model_url(model_name@) == Some(u@),
        r is None ==> spec_model_url(model_name@) is None,
{
    if text::str_eq(model_name, "large-v3-turbo-q8_0") {
        Some("https://huggingface.co/ggerganov/whisper.cpp/resolve/main/ggml-large-v3-turbo-q8_0.bin")
    } else if text::str_eq(model_name, "large-v3-turbo") {
        Some("https://huggingface.co/ggerganov/whisper.cpp/resolve/main/ggml-large-v3-turbo.bin")
    } else if text::str_eq(model_name, "medium") {
        Some("https://huggingface.co/ggerganov/whisper.cpp/resolve/main/ggml-medium.bin")
    } else if text::str_eq(model_name, "small") {
        Some("https://huggingface.co/ggerganov/whisper.cpp/resolve/main/ggml-small.bin")
    } else if text::str_eq(model_name, "base") {
        Some("https://huggingface.co/ggerganov/whisper.cpp/resolve/main/ggml-base.bin")
    } else if text::str_eq(model_name, "tiny") {
        Some("https://huggingface.co/ggerganov/whisper.cpp/resolve/main/ggml-tiny.bin")
    } else {
        None
    }
}

/// On-disk file name for a recognition model, by catalogue name.
pub fn get_model_filename(model_name: &str) -> (r: Option<&'static str>)
    ensures
        r matches Some(u) ==> spec_model_filename(model_name@) == Some(u@),
        r is None ==> spec_model_filename(model_name@) is None,
{
    if text::str_eq(model_name, "large-v3-turbo-q8_0") {
        Some("ggml-large-v3-turbo-q8_0.bin")
    } else if text::str_eq(model_name, "large-v3-turbo") {
        Some("ggml-large-v3-turbo.bin")
    } else if text::str_eq(model_name, "medium") {
        Some("ggml-medium.bin")
    } else if text::str_eq(model_name, "small") {
        Some("ggml-small.bin")
    } else if text::str_eq(model_name, "base") {
        Some("ggml-base.bin")
    } else if text::str_eq(model_name, "tiny") {
        Some("ggml-tiny.bin")
    } else {
        None
    }
}

} // verus!
