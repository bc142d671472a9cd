//! The registration handshake: announce the client's identity on a new
//! session until the peer confirms, at most a fixed number of times.
//!
//! The handshake never marks the connection registered itself; only the
//! message pump does, on reading the confirmation.
use crate::connection::WebSocketState;
use vstd::prelude::*;
use vstd::string::StringExecFns;

verus! {

pub const MAX_REGISTRATION_ATTEMPTS: u32 = 10;

/// Pause after each registration frame, in milliseconds.
pub const REGISTRATION_INTERVAL_MS: u64 = 2000;

pub open spec fn registration_frame() -> Seq<char> {
    "register:default_user"@
}

/// Why a handshake stopped.
#[derive(PartialEq, Eq, Structural, Clone, Copy, Debug)]
pub enum RegistrationEnd {
    /// The peer confirmed.
    Registered,
    /// Every attempt was spent without a confirmation.
    Exhausted,
    /// Its session is gone (closed or replaced).
    NoSession,
    /// Writing the registration frame failed.
    SendFailed,
}

/// What the handshake task does next.
#[derive(PartialEq, Eq, Debug)]
pub enum RegistrationStep {
    /// Write `text` on the session, then sleep `wait_ms` before asking again.
    Send { text: String, wait_ms: u64 },
    Stop(RegistrationEnd),
}

/// The handshake on one session.
#[derive(PartialEq, Eq, Structural, Clone, Copy, Debug)]
pub struct RegistrationHandshake {
    pub session: u64,
    /// Registration frames handed out so far.
    pub attempts: u32,
    pub outcome: Option<RegistrationEnd>,
}

/// Whether a step writes a frame.
pub open spec fn is_send(step: RegistrationStep) -> bool {
    step is Send
}

impl RegistrationHandshake {
    pub open spec fn spec_new(session: u64) -> RegistrationHandshake {
        RegistrationHandshake { session, attempts: 0, outcome: None }
    }

    /// The outcome `next` settles on, if it settles.
    pub open spec fn spec_end(self, state: WebSocketState) -> Option<RegistrationEnd> {
        if self.outcome is Some {
            self.outcome
        } else if self.attempts >= MAX_REGISTRATION_ATTEMPTS {
            Some(RegistrationEnd::Exhausted)
        } else if state.is_registered {
            Some(RegistrationEnd::Registered)
        } else if !state.is_current(self.session) {
            Some(RegistrationEnd::NoSession)
        } else {
            None
        }
    }

    /// The handshake after `next`.
    pub open spec fn spec_after_next(self, state: WebSocketState) -> RegistrationHandshake {
        match self.spec_end(state) {
            Some(end) => RegistrationHandshake { outcome: Some(end), ..self },
            None => RegistrationHandshake { attempts: (self.attempts + 1) as u32, ..self },
        }
    }

    /// The handshake after `next` and, when it sent, the report of how the
    /// write went.
    pub open spec fn spec_round(self, state: WebSocketState, sent_ok: bool) -> RegistrationHandshake {
        let h = self.spec_after_next(state);
        if self.spec_end(state) is None && !sent_ok {
            RegistrationHandshake { outcome: Some(RegistrationEnd::SendFailed), ..h }
        } else {
            h
        }
    }

    pub fn new(session: u64) -> (r: RegistrationHandshake)
        ensures
            r == RegistrationHandshake::spec_new(session),
    {
        RegistrationHandshake { session, attempts: 0, outcome: None }
    }

    /// Decides the next step from the connection state read under the lock:
    /// stop once an outcome is known, every attempt is spent, the peer has
    /// confirmed or the session is no longer current; otherwise send the
    /// registration frame and count the attempt.
    pub fn next(&mut self, state: &WebSocketState) -> (r: RegistrationStep)
        ensures
            *final(self) == old(self).spec_after_next(*state),
            match old(self).spec_end(*state) {
                Some(end) => r == RegistrationStep::Stop(end),
                None => r matches RegistrationStep::Send { text, wait_ms }
                    && text@ == registration_frame()
                    && wait_ms == REGISTRATION_INTERVAL_MS,
            },
    {
        let end = match self.outcome {
            Some(o) => Some(o),
            None => {
                if self.attempts >= MAX_REGISTRATION_ATTEMPTS {
                    Some(RegistrationEnd::Exhausted)
                } else if state.is_registered {
                    Some(RegistrationEnd::Registered)
                } else if !state.is_current_session(self.session) {
                    Some(RegistrationEnd::NoSession)
                } else {
                    None
                }
            },
        };
        match end {
            Some(e) => {
                self.outcome = Some(e);
                RegistrationStep::Stop(e)
            },
            None => {
                self.attempts = self.attempts + 1;
                RegistrationStep::Send {
                    text: String::from_str("register:default_user"),
                    wait_ms: REGISTRATION_INTERVAL_MS,
                }
            },
        }
    }

    /// Records that writing the registration frame failed: the handshake
    /// is over, and the supervisor's reconnect loop recovers.
    pub fn on_send_failed(&mut self)
        ensures
            *final(self) == (RegistrationHandshake {
                outcome: Some(RegistrationEnd::SendFailed),
                ..*old(self)
            }),
    {
        self.outcome = Some(RegistrationEnd::SendFailed);
    }
}

} // verus!
