//! The tray indicator's state: an observer of the recording lifecycle.
//!
//! Drawing icons and tooltips is host work; the state the indicator
//! shows — whether a recording is in progress — is tracked here.

use crate::coordinator::LifecycleEvent;
use vstd::prelude::*;

verus! {

/// The recording indicator shown by the host's tray icon.
pub struct TrayManager {
    /// Whether the indicator shows a recording in progress.
    pub is_recording: bool,
}

impl TrayManager {
    /// An indicator at rest.
    pub fn new() -> (r: Self)
        ensures
            !r.is_recording,
    {
        Self { is_recording: false }
    }

    /// Observe one lifecycle event: a started recording turns the
    /// indicator on, a stopped one turns it off, everything else leaves
    /// it alone.
    pub fn observe(&mut self, event: &LifecycleEvent)
        ensures
            final(self).is_recording == (match event {
                LifecycleEvent::RecordingStarted => true,
                LifecycleEvent::RecordingStopped => false,
                _ => old(self).is_recording,
            }),
    {
        match event {
            LifecycleEvent::RecordingStarted => {
                self.is_recording = true;
            },
            LifecycleEvent::RecordingStopped => {
                self.is_recording = false;
            },
            _ => {},
        }
    }
}

} // verus!
