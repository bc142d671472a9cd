//! The connection supervisor: the reconnect loop as a state machine. The
//! background task that runs it performs each returned action and feeds
//! back what came of it.
use crate::connection::{status_of, WebSocketState};
use crate::models::WebSocketStatus;
use vstd::prelude::*;

verus! {

/// Pause before opening again after a failed open or an ended session, in
/// milliseconds.
pub const RECONNECT_DELAY_MS: u64 = 3000;

#[derive(PartialEq, Eq, Structural, Clone, Copy, Debug)]
pub enum SupervisorPhase {
    /// Not started.
    Idle,
    /// An open of the transport is under way.
    Opening,
    /// Sleeping before the next open.
    Waiting,
    /// A session is up; its handshake and message pump run.
    Running(u64),
}

#[derive(PartialEq, Eq, Structural, Clone, Copy, Debug)]
pub enum SupervisorInput {
    Start,
    OpenSucceeded,
    OpenFailed,
    WaitElapsed,
    SessionEnded,
}

#[derive(PartialEq, Eq, Structural, Clone, Copy, Debug)]
pub enum SupervisorAction {
    /// Open the transport and report how it went.
    Open,
    /// Sleep, then report `WaitElapsed`.
    Wait(u64),
    /// Publish `status`, start the registration handshake on `session`, and
    /// run the message pump on it; report `SessionEnded` when it returns.
    Run { session: u64, status: WebSocketStatus },
    /// The input does not apply in this phase.
    Ignore,
}

#[derive(PartialEq, Eq, Structural, Clone, Copy, Debug)]
pub struct Supervisor {
    pub phase: SupervisorPhase,
}

impl Supervisor {
    pub open spec fn spec_new() -> Supervisor {
        Supervisor { phase: SupervisorPhase::Idle }
    }

    /// The phase after `input`, with the connection state before it.
    pub open spec fn spec_phase(phase: SupervisorPhase, state: WebSocketState, input: SupervisorInput) -> SupervisorPhase {
        match (phase, input) {
            (SupervisorPhase::Idle, SupervisorInput::Start) => SupervisorPhase::Opening,
            (SupervisorPhase::Opening, SupervisorInput::OpenSucceeded) => SupervisorPhase::Running(state.next_session),
            (SupervisorPhase::Opening, SupervisorInput::OpenFailed) => SupervisorPhase::Waiting,
            (SupervisorPhase::Waiting, SupervisorInput::WaitElapsed) => SupervisorPhase::Opening,
            (SupervisorPhase::Running(_), SupervisorInput::SessionEnded) => SupervisorPhase::Waiting,
            _ => phase,
        }
    }

    /// The connection state after `input`: only a successful open changes it
    /// here (the message pump records the end of a session).
    pub open spec fn spec_state(phase: SupervisorPhase, state: WebSocketState, input: SupervisorInput) -> WebSocketState {
        if phase == SupervisorPhase::Opening && input == SupervisorInput::OpenSucceeded {
            state.spec_opened()
        } else {
            state
        }
    }

    pub open spec fn spec_action(phase: SupervisorPhase, state: WebSocketState, input: SupervisorInput) -> SupervisorAction {
        match (phase, input) {
            (SupervisorPhase::Idle, SupervisorInput::Start) => SupervisorAction::Open,
            (SupervisorPhase::Opening, SupervisorInput::OpenSucceeded) => SupervisorAction::Run {
                session: state.next_session,
                status: status_of(true, false),
            },
            (SupervisorPhase::Opening, SupervisorInput::OpenFailed) => SupervisorAction::Wait(RECONNECT_DELAY_MS),
            (SupervisorPhase::Waiting, SupervisorInput::WaitElapsed) => SupervisorAction::Open,
            (SupervisorPhase::Running(_), SupervisorInput::SessionEnded) => SupervisorAction::Wait(RECONNECT_DELAY_MS),
            _ => SupervisorAction::Ignore,
        }
    }

    pub fn new() -> (r: Supervisor)
        ensures
            r == Supervisor::spec_new(),
    {
        Supervisor { phase: SupervisorPhase::Idle }
    }

    /// Takes one input under the state lock and answers the next action.
    pub fn step(&mut self, state: &mut WebSocketState, input: SupervisorInput) -> (r: SupervisorAction)
        requires
            old(state).wf(),
        ensures
            final(self).phase == Supervisor::spec_phase(old(self).phase, *old(state), input),
            *final(state) == Supervisor::spec_state(old(self).phase, *old(state), input),
            r == Supervisor::spec_action(old(self).phase, *old(state), input),
            final(state).wf(),
    {
        match (self.phase, input) {
            (SupervisorPhase::Idle, SupervisorInput::Start) => {
                self.phase = SupervisorPhase::Opening;
                SupervisorAction::Open
            },
            (SupervisorPhase::Opening, SupervisorInput::OpenSucceeded) => {
                let (session, status) = state.open_session();
                self.phase = SupervisorPhase::Running(session);
                SupervisorAction::Run { session, status }
            },
            (SupervisorPhase::Opening, SupervisorInput::OpenFailed) => {
                self.phase = SupervisorPhase::Waiting;
                SupervisorAction::Wait(RECONNECT_DELAY_MS)
            },
            (SupervisorPhase::Waiting, SupervisorInput::WaitElapsed) => {
                self.phase = SupervisorPhase::Opening;
                SupervisorAction::Open
            },
            (SupervisorPhase::Running(_), SupervisorInput::SessionEnded) => {
                self.phase = SupervisorPhase::Waiting;
                SupervisorAction::Wait(RECONNECT_DELAY_MS)
            },
            _ => SupervisorAction::Ignore,
        }
    }
}

} // verus!
