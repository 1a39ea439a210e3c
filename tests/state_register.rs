use screen_recorder::state::parse_status;
use screen_recorder::{AppState, RecordingStatus, StatusError};

#[test]
fn starts_idle() {
    let s = AppState::default();
    assert_eq!(s.status(), RecordingStatus::Idle);
    assert!(!s.is_recording());
}

#[test]
fn valid_tokens_set_phase_and_flag() {
    let cases = [
        ("idle", RecordingStatus::Idle, false),
        ("recording", RecordingStatus::Recording, true),
        ("paused", RecordingStatus::Paused, true),
    ];
    for (token, phase, flag) in cases {
        let mut s = AppState::new();
        assert_eq!(s.update_recording_status(token), Ok(()));
        assert_eq!(s.status(), phase);
        assert_eq!(s.is_recording(), flag);
        assert_eq!(s.status().token(), token);
    }
}

#[test]
fn invalid_token_keeps_state() {
    let mut s = AppState::new();
    assert_eq!(s.update_recording_status("recording"), Ok(()));
    for token in ["", "Recording", "stopped", "idle ", "pause"] {
        assert_eq!(s.update_recording_status(token), Err(StatusError::InvalidStatus));
        assert_eq!(s.status(), RecordingStatus::Recording);
        assert!(s.is_recording());
    }
}

#[test]
fn back_to_idle_clears_flag() {
    let mut s = AppState::new();
    assert_eq!(s.update_recording_status("paused"), Ok(()));
    assert!(s.is_recording());
    assert_eq!(s.update_recording_status("idle"), Ok(()));
    assert!(!s.is_recording());
    assert_eq!(s.status(), RecordingStatus::Idle);
}

#[test]
fn parse_status_tokens() {
    assert_eq!(parse_status("paused"), Some(RecordingStatus::Paused));
    assert_eq!(parse_status("PAUSED"), None);
    assert!(RecordingStatus::Paused.is_active());
    assert!(!RecordingStatus::Idle.is_active());
}

#[test]
fn status_error_message() {
    assert_eq!(StatusError::InvalidStatus.message(), "无效的状态");
}
