use session_recorder::controller::{
    close_session, close_session_now, conclude_analysis, mark_processing, open_session,
    ControlError, RecordingSlot,
};
use session_recorder::models::SessionStatus::{Analyzed, Error, Processing, Recorded, Recording};
use session_recorder::models::{Session, SessionStatus};

fn session_at(id: &str, started_at: &str) -> Session {
    open_session("/data/sessions", id.to_string(), started_at.to_string())
}

#[test]
fn transition_table_is_forward_only() {
    let all = [Recording, Recorded, Processing, Analyzed, Error];
    let allowed = [
        (Recording, Recorded),
        (Recording, Error),
        (Recorded, Processing),
        (Processing, Analyzed),
        (Processing, Error),
    ];
    for from in all {
        for to in all {
            assert_eq!(from.can_advance_to(to), allowed.contains(&(from, to)), "{:?} -> {:?}", from, to);
        }
    }
    assert!(Analyzed.is_final());
    assert!(Error.is_final());
    assert!(!Recording.is_final());
    assert!(!Recorded.is_final());
    assert!(!Processing.is_final());
}

#[test]
fn status_names_are_persisted_lower_case() {
    assert_eq!(SessionStatus::Recording.name(), "recording");
    assert_eq!(SessionStatus::Recorded.name(), "recorded");
    assert_eq!(SessionStatus::Processing.name(), "processing");
    assert_eq!(SessionStatus::Analyzed.name(), "analyzed");
    assert_eq!(SessionStatus::Error.name(), "error");
}

#[test]
fn plan_start_mints_a_recording_session() {
    let slot = RecordingSlot::new();
    assert!(!slot.is_active());
    let s = slot.plan_start("/data/sessions").unwrap();
    assert_eq!(s.id.len(), 36);
    for (i, c) in s.id.chars().enumerate() {
        if i == 8 || i == 13 || i == 18 || i == 23 {
            assert_eq!(c, '-');
        } else {
            assert!(c.is_ascii_hexdigit() && !c.is_ascii_uppercase());
        }
    }
    assert!(!s.started_at.is_empty());
    assert_eq!(s.ended_at, None);
    assert_eq!(s.status, SessionStatus::Recording);
    assert_eq!(s.audio_path, format!("/data/sessions/{}/audio.wav", s.id));
    let other = slot.plan_start("/data/sessions").unwrap();
    assert_ne!(s.id, other.id);
}

#[test]
fn start_refused_while_another_is_active() {
    let mut slot = RecordingSlot::new();
    let s = slot.plan_start("/data/sessions").unwrap();
    assert!(slot.claim(s.id.clone()).is_ok());
    assert_eq!(slot.plan_start("/data/sessions").unwrap_err(), ControlError::AlreadyActive);
    assert_eq!(slot.claim("other".to_string()), Err(ControlError::AlreadyActive));
    assert!(slot.is_recording(&s.id));
    assert!(!slot.is_recording(&"other".to_string()));
    assert_eq!(ControlError::AlreadyActive.message(), "a recording session is already active");
}

#[test]
fn stop_with_mismatched_id_keeps_the_slot() {
    let mut slot = RecordingSlot::new();
    assert_eq!(slot.release_for_stop(&"a".to_string()), Err(ControlError::NoActiveRecording));
    assert_eq!(slot.check_can_stop(&"a".to_string()), Err(ControlError::NoActiveRecording));
    slot.claim("a".to_string()).unwrap();
    assert_eq!(slot.check_can_stop(&"b".to_string()), Err(ControlError::SessionMismatch));
    assert_eq!(slot.release_for_stop(&"b".to_string()), Err(ControlError::SessionMismatch));
    assert!(slot.is_recording(&"a".to_string()));
    assert_eq!(slot.check_can_stop(&"a".to_string()), Ok(()));
    assert!(slot.is_recording(&"a".to_string()));
    assert_eq!(slot.release_for_stop(&"a".to_string()), Ok(()));
    assert!(!slot.is_active());
    assert_eq!(ControlError::NoActiveRecording.message(), "no active recording session");
    assert_eq!(
        ControlError::SessionMismatch.message(),
        "requested session does not match active session"
    );
}

#[test]
fn start_then_immediate_stop_is_recorded() {
    let mut slot = RecordingSlot::new();
    let s = slot.plan_start("/tmp/root").unwrap();
    slot.claim(s.id.clone()).unwrap();
    slot.release_for_stop(&s.id).unwrap();
    let closed = close_session(s, "2024-01-01T00:00:01+00:00".to_string(), true);
    assert_eq!(closed.status, SessionStatus::Recorded);
    assert_eq!(closed.ended_at.as_deref(), Some("2024-01-01T00:00:01+00:00"));
    assert!(!slot.is_active());
}

#[test]
fn failed_capture_closes_with_error() {
    let s = session_at("x", "2024-01-01T00:00:00+00:00");
    let closed = close_session_now(s, false);
    assert_eq!(closed.status, SessionStatus::Error);
    assert!(closed.ended_at.map(|e| !e.is_empty()).unwrap_or(false));
    assert_eq!(closed.id, "x");
    assert_eq!(closed.audio_path, "/data/sessions/x/audio.wav");
}

#[test]
fn analyze_refused_for_the_active_recording() {
    let mut slot = RecordingSlot::new();
    slot.claim("live".to_string()).unwrap();
    let s = session_at("live", "2024-01-01T00:00:00+00:00");
    assert_eq!(slot.check_can_analyze(&s.id), Err(ControlError::AnalyzeWhileRecording));
    assert_eq!(s.status, SessionStatus::Recording);
    assert_eq!(slot.check_can_analyze(&"done".to_string()), Ok(()));
    assert_eq!(
        ControlError::AnalyzeWhileRecording.message(),
        "cannot analyze while session is recording"
    );
}

#[test]
fn delete_refused_for_the_active_recording() {
    let mut slot = RecordingSlot::new();
    assert_eq!(slot.check_can_delete(&"a".to_string()), Ok(()));
    slot.claim("a".to_string()).unwrap();
    assert_eq!(slot.check_can_delete(&"a".to_string()), Err(ControlError::DeleteWhileRecording));
    assert_eq!(slot.check_can_delete(&"b".to_string()), Ok(()));
    assert_eq!(
        ControlError::DeleteWhileRecording.message(),
        "cannot delete while session is recording"
    );
}

#[test]
fn reanalysis_leaves_analyzed() {
    let s = close_session(session_at("a", "t0"), "t1".to_string(), true);
    let s = conclude_analysis(mark_processing(s), true);
    assert_eq!(s.status, SessionStatus::Analyzed);
    let again = mark_processing(s);
    assert_eq!(again.status, SessionStatus::Processing);
    let again = conclude_analysis(again, true);
    assert_eq!(again.status, SessionStatus::Analyzed);
    assert_eq!(again.ended_at.as_deref(), Some("t1"));
    let failed = conclude_analysis(mark_processing(again), false);
    assert_eq!(failed.status, SessionStatus::Error);
}

#[test]
fn duplicate_copies_every_field() {
    let s = close_session(session_at("a", "t0"), "t1".to_string(), true);
    let d = s.duplicate();
    assert_eq!(d.id, s.id);
    assert_eq!(d.started_at, s.started_at);
    assert_eq!(d.ended_at, s.ended_at);
    assert_eq!(d.audio_path, s.audio_path);
    assert_eq!(d.status, s.status);
}
