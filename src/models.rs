use vstd::prelude::*;

verus! {

/// Lifecycle status of a recording session.
#[derive(Clone, Copy, Debug, PartialEq, Eq, Structural)]
pub enum SessionStatus {
    Recording,
    Recorded,
    Processing,
    Analyzed,
    Error,
}

/// The name under which a status is persisted.
pub open spec fn status_name(s: SessionStatus) -> Seq<char> {
    match s {
        SessionStatus::Recording => "recording"@,
        SessionStatus::Recorded => "recorded"@,
        SessionStatus::Processing => "processing"@,
        SessionStatus::Analyzed => "analyzed"@,
        SessionStatus::Error => "error"@,
    }
}

impl SessionStatus {
    /// The forward-only transition table: `Recording -> Recorded -> Processing
    /// -> Analyzed`, with `Error` reachable from `Recording` and `Processing`.
    pub open spec fn advances_to(self, next: SessionStatus) -> bool {
        match (self, next) {
            (SessionStatus::Recording, SessionStatus::Recorded) => true,
            (SessionStatus::Recording, SessionStatus::Error) => true,
            (SessionStatus::Recorded, SessionStatus::Processing) => true,
            (SessionStatus::Processing, SessionStatus::Analyzed) => true,
            (SessionStatus::Processing, SessionStatus::Error) => true,
            _ => false,
        }
    }

    /// Whether moving from `self` to `next` follows the transition table.
    pub fn can_advance_to(&self, next: SessionStatus) -> (r: bool)
        ensures
            r == self.advances_to(next),
    {
        match (*self, next) {
            (SessionStatus::Recording, SessionStatus::Recorded) => true,
            (SessionStatus::Recording, SessionStatus::Error) => true,
            (SessionStatus::Recorded, SessionStatus::Processing) => true,
            (SessionStatus::Processing, SessionStatus::Analyzed) => true,
            (SessionStatus::Processing, SessionStatus::Error) => true,
            _ => false,
        }
    }

    /// A status that no transition leaves.
    pub fn is_final(&self) -> (r: bool)
        ensures
            r == (forall|n: SessionStatus| !self.advances_to(n)),
    {
        let r = match *self {
            SessionStatus::Analyzed => true,
            SessionStatus::Error => true,
            _ => false,
        };
        proof {
            if !r {
                match *self {
                    SessionStatus::Recording => assert(self.advances_to(SessionStatus::Recorded)),
                    SessionStatus::Recorded => assert(self.advances_to(SessionStatus::Processing)),
                    _ => assert(self.advances_to(SessionStatus::Analyzed)),
                }
            }
        }
        r
    }

    /// The persisted name of this status.
    pub fn name(&self) -> (r: &'static str)
        ensures
            r@ == status_name(*self),
    {
        match *self {
            SessionStatus::Recording => "recording",
            SessionStatus::Recorded => "recorded",
            SessionStatus::Processing => "processing",
            SessionStatus::Analyzed => "analyzed",
            SessionStatus::Error => "error",
        }
    }
}

/// Identity and lifecycle record of one recording.
#[derive(Clone, Debug)]
pub struct Session {
    pub id: String,
    pub started_at: String,
    pub ended_at: Option<String>,
    pub audio_path: String,
    pub status: SessionStatus,
}

impl Session {
    /// `ended_at` is set exactly when the session is no longer recording.
    pub open spec fn well_formed(&self) -> bool {
        self.ended_at.is_some() <==> self.status != SessionStatus::Recording
    }

    /// A field-by-field copy.
    pub fn duplicate(&self) -> (r: Session)
        ensures
            r == *self,
    {
        let ended_at = match &self.ended_at {
            Some(e) => Some(e.clone()),
            None => None,
        };
        Session {
            id: self.id.clone(),
            started_at: self.started_at.clone(),
            ended_at,
            audio_path: self.audio_path.clone(),
            status: self.status,
        }
    }
}

/// What a successful start hands back.
#[derive(Clone, Debug)]
pub struct StartRecordingResponse {
    pub session: Session,
}

/// What a successful stop hands back.
#[derive(Clone, Debug)]
pub struct StopRecordingResponse {
    pub session: Session,
}

/// Where an export wrote its files.
#[derive(Clone, Debug)]
pub struct ExportPaths {
    pub csv_path: String,
    pub json_path: String,
}

} // verus!
