use vstd::prelude::*;

use crate::layout::{audio_wav_path, joined, session_dir_path};
use crate::models::{Session, SessionStatus};

verus! {

/// A lower-case hexadecimal digit.
pub open spec fn is_lower_hex(c: char) -> bool {
    ('0' <= c && c <= '9') || ('a' <= c && c <= 'f')
}

/// The hyphenated textual form of a UUID: 36 characters, hyphens at
/// positions 8, 13, 18 and 23, lower-case hexadecimal digits elsewhere.
pub open spec fn is_hyphenated_uuid(s: Seq<char>) -> bool {
    &&& s.len() == 36
    &&& forall|i: int|
        0 <= i < 36 ==> if i == 8 || i == 13 || i == 18 || i == 23 {
            s[i] == '-'
        } else {
            is_lower_hex(#[trigger] s[i])
        }
}

/// Relies on uuid's `Uuid::new_v4` and its `Display` impl, which writes the
/// hyphenated lower-case form.
#[verifier::external_body]
fn fresh_session_id() -> (r: String)
    ensures
        is_hyphenated_uuid(r@),
{
    uuid::Uuid::new_v4().to_string()
}

/// Relies on chrono's `Utc::now` and `DateTime::to_rfc3339` for the current
/// time as an RFC 3339 string.
#[verifier::external_body]
fn now_rfc3339() -> (r: String) {
    chrono::Utc::now().to_rfc3339()
}

/// Why a command was refused by the active-recording slot.
#[derive(Clone, Copy, Debug, PartialEq, Eq, Structural)]
pub enum ControlError {
    AlreadyActive,
    NoActiveRecording,
    SessionMismatch,
    AnalyzeWhileRecording,
    DeleteWhileRecording,
}

/// The message reported for each refusal.
pub open spec fn control_error_text(e: ControlError) -> Seq<char> {
    match e {
        ControlError::AlreadyActive => "a recording session is already active"@,
        ControlError::NoActiveRecording => "no active recording session"@,
        ControlError::SessionMismatch => "requested session does not match active session"@,
        ControlError::AnalyzeWhileRecording => "cannot analyze while session is recording"@,
        ControlError::DeleteWhileRecording => "cannot delete while session is recording"@,
    }
}

impl ControlError {
    /// The message reported for this refusal.
    pub fn message(&self) -> (r: &'static str)
        ensures
            r@ == control_error_text(*self),
    {
        match *self {
            ControlError::AlreadyActive => "a recording session is already active",
            ControlError::NoActiveRecording => "no active recording session",
            ControlError::SessionMismatch => "requested session does not match active session",
            ControlError::AnalyzeWhileRecording => "cannot analyze while session is recording",
            ControlError::DeleteWhileRecording => "cannot delete while session is recording",
        }
    }
}

/// The process-wide tracker of which session, if any, is recording.
pub struct RecordingSlot {
    occupant: Option<String>,
}

impl View for RecordingSlot {
    type V = Option<Seq<char>>;

    closed spec fn view(&self) -> Option<Seq<char>> {
        match self.occupant {
            Some(id) => Some(id@),
            None => None,
        }
    }
}

impl RecordingSlot {
    /// An empty slot.
    pub fn new() -> (r: RecordingSlot)
        ensures
            r@ is None,
    {
        RecordingSlot { occupant: None }
    }

    /// Whether any session is recording.
    pub fn is_active(&self) -> (r: bool)
        ensures
            r == self@ is Some,
    {
        self.occupant.is_some()
    }

    /// Whether `session_id` is the recording session.
    pub fn is_recording(&self, session_id: &String) -> (r: bool)
        ensures
            r == (self@ == Some(session_id@)),
    {
        match &self.occupant {
            Some(id) => *id == *session_id,
            None => false,
        }
    }

    /// Mints the record of a new session under `sessions_root`, refused while
    /// another session is recording. The slot itself is left as it was: it is
    /// taken by `claim` once the record is stored and capture runs.
    pub fn plan_start(&self, sessions_root: &str) -> (r: Result<Session, ControlError>)
        ensures
            self@ is Some <==> r is Err,
            r is Err ==> r == Err::<Session, ControlError>(ControlError::AlreadyActive),
            r matches Ok(s) ==> is_hyphenated_uuid(s.id@) && is_opened(s, sessions_root@),
    {
        if self.occupant.is_some() {
            return Err(ControlError::AlreadyActive);
        }
        let id = fresh_session_id();
        let started_at = now_rfc3339();
        Ok(open_session(sessions_root, id, started_at))
    }

    /// Takes the slot for `session_id`; refused, with the slot unchanged,
    /// while another session holds it.
    pub fn claim(&mut self, session_id: String) -> (r: Result<(), ControlError>)
        ensures
            old(self)@ is Some ==> r == Err::<(), ControlError>(ControlError::AlreadyActive)
                && final(self)@ == old(self)@,
            old(self)@ is None ==> r is Ok && final(self)@ == Some(session_id@),
    {
        if self.occupant.is_some() {
            return Err(ControlError::AlreadyActive);
        }
        self.occupant = Some(session_id);
        Ok(())
    }

    /// Whether `session_id` may be stopped: it must be the recording session.
    /// The slot stays occupied until the capture thread has been joined and
    /// `release_for_stop` vacates it.
    pub fn check_can_stop(&self, session_id: &String) -> (r: Result<(), ControlError>)
        ensures
            self@ is None ==> r == Err::<(), ControlError>(ControlError::NoActiveRecording),
            self@ matches Some(o) && o != session_id@ ==> r == Err::<(), ControlError>(
                ControlError::SessionMismatch,
            ),
            self@ == Some(session_id@) <==> r is Ok,
    {
        match &self.occupant {
            None => Err(ControlError::NoActiveRecording),
            Some(id) => if *id == *session_id {
                Ok(())
            } else {
                Err(ControlError::SessionMismatch)
            },
        }
    }

    /// Vacates the slot once the capture of `session_id` has ended. Refused,
    /// with the slot unchanged, when nothing records or another session does.
    pub fn release_for_stop(&mut self, session_id: &String) -> (r: Result<(), ControlError>)
        ensures
            old(self)@ is None ==> r == Err::<(), ControlError>(ControlError::NoActiveRecording),
            old(self)@ matches Some(o) && o != session_id@ ==> r == Err::<(), ControlError>(
                ControlError::SessionMismatch,
            ),
            r is Err ==> final(self)@ == old(self)@,
            old(self)@ == Some(session_id@) <==> r is Ok,
            r is Ok ==> final(self)@ is None,
    {
        let matches = match &self.occupant {
            None => {
                return Err(ControlError::NoActiveRecording);
            },
            Some(id) => *id == *session_id,
        };
        if !matches {
            return Err(ControlError::SessionMismatch);
        }
        self.occupant = None;
        Ok(())
    }

    /// Refuses to analyze the session that is recording.
    pub fn check_can_analyze(&self, session_id: &String) -> (r: Result<(), ControlError>)
        ensures
            self@ == Some(session_id@) ==> r == Err::<(), ControlError>(
                ControlError::AnalyzeWhileRecording,
            ),
            self@ != Some(session_id@) ==> r is Ok,
    {
        if self.is_recording(session_id) {
            Err(ControlError::AnalyzeWhileRecording)
        } else {
            Ok(())
        }
    }

    /// Refuses to delete the session that is recording.
    pub fn check_can_delete(&self, session_id: &String) -> (r: Result<(), ControlError>)
        ensures
            self@ == Some(session_id@) ==> r == Err::<(), ControlError>(
                ControlError::DeleteWhileRecording,
            ),
            self@ != Some(session_id@) ==> r is Ok,
    {
        if self.is_recording(session_id) {
            Err(ControlError::DeleteWhileRecording)
        } else {
            Ok(())
        }
    }
}

/// `s` is a freshly opened session under `sessions_root`: recording, not yet
/// ended, its audio in its own directory named by its id.
pub open spec fn is_opened(s: Session, sessions_root: Seq<char>) -> bool {
    &&& s.status == SessionStatus::Recording
    &&& s.ended_at is None
    &&& s.audio_path@ == joined(joined(sessions_root, s.id@), "audio.wav"@)
}

/// The record of a session that starts now.
pub fn open_session(sessions_root: &str, id: String, started_at: String) -> (r: Session)
    ensures
        is_opened(r, sessions_root@),
        r.id == id,
        r.started_at == started_at,
        r.well_formed(),
{
    let dir = session_dir_path(sessions_root, id.as_str());
    let audio_path = audio_wav_path(dir.as_str());
    Session { id, started_at, ended_at: None, audio_path, status: SessionStatus::Recording }
}

/// `s` once capture has ended at `ended_at`, successfully or not.
pub open spec fn closed(s: Session, ended_at: String, capture_ok: bool) -> Session {
    Session {
        ended_at: Some(ended_at),
        status: if capture_ok {
            SessionStatus::Recorded
        } else {
            SessionStatus::Error
        },
        ..s
    }
}

/// Ends a session's capture: `Recorded` when it succeeded, `Error` otherwise.
pub fn close_session(session: Session, ended_at: String, capture_ok: bool) -> (r: Session)
    ensures
        r == closed(session, ended_at, capture_ok),
        r.well_formed(),
{
    let status = if capture_ok {
        SessionStatus::Recorded
    } else {
        SessionStatus::Error
    };
    Session { ended_at: Some(ended_at), status, ..session }
}

/// Ends a session's capture at the current time.
pub fn close_session_now(session: Session, capture_ok: bool) -> (r: Session)
    ensures
        r.ended_at is Some,
        r == closed(session, r.ended_at->0, capture_ok),
{
    let ended_at = now_rfc3339();
    close_session(session, ended_at, capture_ok)
}

/// `s` with its status replaced.
pub open spec fn with_status(s: Session, status: SessionStatus) -> Session {
    Session { status, ..s }
}

/// Marks a session as being analyzed.
pub fn mark_processing(session: Session) -> (r: Session)
    ensures
        r == with_status(session, SessionStatus::Processing),
{
    Session { status: SessionStatus::Processing, ..session }
}

/// Records the outcome of an analysis: `Analyzed` on success, `Error` otherwise.
pub fn conclude_analysis(session: Session, analysis_ok: bool) -> (r: Session)
    ensures
        r == with_status(
            session,
            if analysis_ok {
                SessionStatus::Analyzed
            } else {
                SessionStatus::Error
            },
        ),
{
    let status = if analysis_ok {
        SessionStatus::Analyzed
    } else {
        SessionStatus::Error
    };
    Session { status, ..session }
}

} // verus!
