//! The recording-state register: the current phase and the flag derived from it.
use vstd::prelude::*;

verus! {

/// Phase of the recording, as reported by the frontend.
#[derive(Debug, Clone, Copy, PartialEq, Eq, Structural)]
pub enum RecordingStatus {
    Idle,
    Recording,
    Paused,
}

/// Why a status update was refused.
#[derive(Debug, Clone, Copy, PartialEq, Eq, Structural)]
pub enum StatusError {
    /// The token is none of "idle", "recording", "paused".
    InvalidStatus,
}

/// The phase that a status token names, if any.
pub open spec fn status_of_token(t: Seq<char>) -> Option<RecordingStatus> {
    if t == "idle"@ {
        Some(RecordingStatus::Idle)
    } else if t == "recording"@ {
        Some(RecordingStatus::Recording)
    } else if t == "paused"@ {
        Some(RecordingStatus::Paused)
    } else {
        None
    }
}

impl StatusError {
    /// The message reported to the frontend.
    pub fn message(&self) -> (r: String)
        ensures
            r@ == "无效的状态"@,
    {
        "无效的状态".to_owned()
    }
}

impl RecordingStatus {
    /// A recording is under way, running or paused.
    pub open spec fn spec_is_active(&self) -> bool {
        self != RecordingStatus::Idle
    }

    /// The token that the frontend uses for this phase.
    pub open spec fn spec_token(&self) -> Seq<char> {
        match self {
            RecordingStatus::Idle => "idle"@,
            RecordingStatus::Recording => "recording"@,
            RecordingStatus::Paused => "paused"@,
        }
    }

    #[verifier::when_used_as_spec(spec_is_active)]
    pub fn is_active(&self) -> (r: bool)
        ensures
            r == self.spec_is_active(),
    {
        match self {
            RecordingStatus::Idle => false,
            _ => true,
        }
    }

    /// The token that the frontend uses for this phase.
    pub fn token(&self) -> (r: &'static str)
        ensures
            r@ == self.spec_token(),
    {
        match self {
            RecordingStatus::Idle => "idle",
            RecordingStatus::Recording => "recording",
            RecordingStatus::Paused => "paused",
        }
    }
}

/// Equality of two strings by their characters.
pub(crate) fn same_text(a: &str, b: &str) -> (r: bool)
    ensures
        r == (a@ == b@),
{
    a.to_owned() == b.to_owned()
}

/// Reads a status token: `None` for anything but "idle", "recording", "paused".
pub fn parse_status(t: &str) -> (r: Option<RecordingStatus>)
    ensures
        r == status_of_token(t@),
{
    if same_text(t, "idle") {
        Some(RecordingStatus::Idle)
    } else if same_text(t, "recording") {
        Some(RecordingStatus::Recording)
    } else if same_text(t, "paused") {
        Some(RecordingStatus::Paused)
    } else {
        None
    }
}

/// The process-wide recording register: the phase and the flag derived from it,
/// updated together. The application keeps one instance behind a single lock.
#[derive(Debug)]
pub struct AppState {
    recording_status: RecordingStatus,
    is_recording: bool,
}

impl AppState {
    pub closed spec fn spec_status(&self) -> RecordingStatus {
        self.recording_status
    }

    pub closed spec fn spec_is_recording(&self) -> bool {
        self.is_recording
    }

    /// The flag is the one derived from the phase.
    pub open spec fn wf(&self) -> bool {
        self.spec_is_recording() == self.spec_status().spec_is_active()
    }

    /// The register after a status update with the token `t`: the named phase
    /// and its flag, or the register unchanged when `t` names no phase.
    pub open spec fn after_update(&self, t: Seq<char>) -> (RecordingStatus, bool) {
        match status_of_token(t) {
            Some(p) => (p, p.spec_is_active()),
            None => (self.spec_status(), self.spec_is_recording()),
        }
    }

    /// A register at start-up: idle, not recording.
    pub fn new() -> (r: AppState)
        ensures
            r.spec_status() == RecordingStatus::Idle,
            !r.spec_is_recording(),
            r.wf(),
    {
        AppState { recording_status: RecordingStatus::Idle, is_recording: false }
    }

    /// The current phase.
    pub fn status(&self) -> (r: RecordingStatus)
        ensures
            r == self.spec_status(),
    {
        self.recording_status
    }

    /// Whether a recording is under way (running or paused).
    pub fn is_recording(&self) -> (r: bool)
        ensures
            r == self.spec_is_recording(),
    {
        self.is_recording
    }

    /// Sets the phase from a frontend token and recomputes the flag with it.
    /// A token that names no phase is refused and the register left as it was.
    pub fn update_recording_status(&mut self, status: &str) -> (r: Result<(), StatusError>)
        ensures
            r is Ok <==> status_of_token(status@) is Some,
            r is Err ==> r == Err::<(), StatusError>(StatusError::InvalidStatus),
            (final(self).spec_status(), final(self).spec_is_recording())
                == old(self).after_update(status@),
            old(self).wf() ==> final(self).wf(),
    {
        match parse_status(status) {
            Some(p) => {
                self.recording_status = p;
                self.is_recording = p.is_active();
                Ok(())
            },
            None => Err(StatusError::InvalidStatus),
        }
    }
}

impl Default for AppState {
    fn default() -> (r: AppState)
        ensures
            r.spec_status() == RecordingStatus::Idle,
            !r.spec_is_recording(),
            r.wf(),
    {
        AppState::new()
    }
}

/// A status update with one of the three tokens sets the phase that it names:
/// reading the phase back gives the same token, and the flag is set exactly
/// when the token is not "idle".
pub proof fn lemma_valid_token_sets_phase(s: AppState, t: Seq<char>)
    requires
        t == "idle"@ || t == "recording"@ || t == "paused"@,
    ensures
        status_of_token(t) is Some,
        s.after_update(t).0.spec_token() == t,
        s.after_update(t).1 == (t != "idle"@),
        s.after_update(t).1 == s.after_update(t).0.spec_is_active(),
{
    reveal_strlit("idle");
    reveal_strlit("recording");
    reveal_strlit("paused");
    assert("idle"@[0] != "recording"@[0]);
    assert("idle"@[0] != "paused"@[0]);
    assert("recording"@[0] != "paused"@[0]);
}

/// A status update with any other token is refused and changes neither the
/// phase nor the flag.
pub proof fn lemma_invalid_token_keeps_state(s: AppState, t: Seq<char>)
    requires
        t != "idle"@,
        t != "recording"@,
        t != "paused"@,
    ensures
        status_of_token(t) is None,
        s.after_update(t) == (s.spec_status(), s.spec_is_recording()),
{
}

} // verus!
