//! The capture buffer discipline and the tray observer.

use voice_input::capture::AudioCapture;
use voice_input::coordinator::LifecycleEvent;
use voice_input::tray::TrayManager;

#[test]
fn test_capture_keeps_order_and_clears_on_stop() {
    let mut cap = AudioCapture::new(48000);
    assert_eq!(cap.get_sample_rate(), 48000);
    cap.start_recording();
    cap.append_samples(&vec![1, 2, 3]);
    cap.append_samples(&vec![4, 5]);
    let snapshot = cap.stop_recording();
    assert_eq!(snapshot, vec![1, 2, 3, 4, 5]);
    assert!(cap.buffer.is_empty());
    let next = cap.stop_recording();
    assert!(next.is_empty());
}

#[test]
fn test_capture_restart_drops_old_buffer() {
    let mut cap = AudioCapture::new(16000);
    cap.start_recording();
    cap.append_samples(&vec![9, 9]);
    cap.start_recording();
    cap.append_samples(&vec![1]);
    assert_eq!(cap.stop_recording(), vec![1]);
}

#[test]
fn test_tray_follows_lifecycle() {
    let mut tray = TrayManager::new();
    assert!(!tray.is_recording);
    tray.observe(&LifecycleEvent::RecordingStarted);
    assert!(tray.is_recording);
    tray.observe(&LifecycleEvent::TranscriptionStarted);
    assert!(tray.is_recording);
    tray.observe(&LifecycleEvent::RecordingStopped);
    assert!(!tray.is_recording);
}
