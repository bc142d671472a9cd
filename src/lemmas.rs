//! Laws of the connection manager over whole histories, proved from the
//! transitions that the executable functions are held to.
use crate::connection::{registered_reply, status_of, Frame, WebSocketState};
use crate::registration::{RegistrationHandshake, MAX_REGISTRATION_ATTEMPTS, REGISTRATION_INTERVAL_MS};
use crate::supervisor::{Supervisor, SupervisorAction, SupervisorInput, SupervisorPhase, RECONNECT_DELAY_MS};
use vstd::prelude::*;

verus! {

/// One thing that can happen to the shared connection state.
pub enum Operation {
    /// An input of the reconnect loop (`Supervisor::step`).
    Supervise(SupervisorInput),
    /// A frame read by the message pump of a session (`WebSocketState::on_frame`).
    Read(u64, Frame),
    /// A user-initiated disconnection (`WebSocketService::disconnect`).
    Disconnect,
}

/// The state after a frame, as `on_frame` leaves it.
pub open spec fn after_frame(state: WebSocketState, session: u64, frame: Frame) -> WebSocketState {
    match frame {
        Frame::Text(t) => state.spec_text(session, t@),
        Frame::Binary(_) => state,
        Frame::Close => state.spec_cleared(),
    }
}

/// The supervisor phase and connection state after one operation.
pub open spec fn apply(phase: SupervisorPhase, state: WebSocketState, op: Operation) -> (SupervisorPhase, WebSocketState) {
    match op {
        Operation::Supervise(i) => (Supervisor::spec_phase(phase, state, i), Supervisor::spec_state(phase, state, i)),
        Operation::Read(session, frame) => (phase, after_frame(state, session, frame)),
        Operation::Disconnect => (phase, state.spec_cleared()),
    }
}

/// The supervisor phase and connection state after a history of operations.
pub open spec fn run(phase: SupervisorPhase, state: WebSocketState, ops: Seq<Operation>) -> (SupervisorPhase, WebSocketState)
    decreases ops.len(),
{
    if ops.len() == 0 {
        (phase, state)
    } else {
        let next = apply(phase, state, ops[0]);
        run(next.0, next.1, ops.drop_first())
    }
}

/// Every operation keeps the connection state well formed.
pub proof fn lemma_apply_preserves_wf(phase: SupervisorPhase, state: WebSocketState, op: Operation)
    requires
        state.wf(),
    ensures
        apply(phase, state, op).1.wf(),
{
}

/// Every history keeps the connection state well formed: registered implies
/// connected, and a session is held exactly while connected.
pub proof fn lemma_run_preserves_wf(phase: SupervisorPhase, state: WebSocketState, ops: Seq<Operation>)
    requires
        state.wf(),
    ensures
        run(phase, state, ops).1.wf(),
    decreases ops.len(),
{
    if ops.len() > 0 {
        let next = apply(phase, state, ops[0]);
        lemma_apply_preserves_wf(phase, state, ops[0]);
        lemma_run_preserves_wf(next.0, next.1, ops.drop_first());
    }
}

/// Whatever history of connects, frames and disconnects came before, the
/// status read right after a disconnection is neither connected nor
/// registered.
pub proof fn lemma_status_after_disconnect(ops: Seq<Operation>)
    ensures
        run(SupervisorPhase::Idle, WebSocketState::spec_initial(), ops.push(Operation::Disconnect)).1.status()
            == status_of(false, false),
{
    lemma_run_push(SupervisorPhase::Idle, WebSocketState::spec_initial(), ops, Operation::Disconnect);
}

/// Running a history extended by one operation is running the history, then
/// the operation.
pub proof fn lemma_run_push(phase: SupervisorPhase, state: WebSocketState, ops: Seq<Operation>, op: Operation)
    ensures
        run(phase, state, ops.push(op)) == ({
            let before = run(phase, state, ops);
            apply(before.0, before.1, op)
        }),
    decreases ops.len(),
{
    if ops.len() == 0 {
        assert(ops.push(op).drop_first() =~= Seq::<Operation>::empty());
        let after = apply(phase, state, op);
        assert(run(after.0, after.1, ops.push(op).drop_first()) == after);
    } else {
        let next = apply(phase, state, ops[0]);
        assert(ops.push(op)[0] == ops[0]);
        assert(ops.push(op).drop_first() =~= ops.drop_first().push(op));
        lemma_run_push(next.0, next.1, ops.drop_first(), op);
    }
}

/// No operation marks the connection registered but the confirmation frame
/// read on the current session.
pub proof fn lemma_registered_only_by_confirmation(phase: SupervisorPhase, state: WebSocketState, op: Operation)
    requires
        !state.is_registered,
        apply(phase, state, op).1.is_registered,
    ensures
        op matches Operation::Read(session, Frame::Text(t))
            && t@ == registered_reply()
            && state.is_current(session),
{
}

/// The end of a session read by the pump and a user disconnection converge:
/// either alone, or both in either order, leave the same state, and each
/// announces neither connected nor registered.
pub proof fn lemma_session_end_converges(state: WebSocketState, session: u64)
    ensures
        after_frame(state, session, Frame::Close) == state.spec_cleared(),
        after_frame(state.spec_cleared(), session, Frame::Close) == state.spec_cleared(),
        after_frame(state, session, Frame::Close).spec_cleared() == state.spec_cleared(),
        state.spec_cleared().status() == status_of(false, false),
{
}

/// A state that was never connected has no session for a send to go out on.
pub proof fn lemma_fresh_state_has_no_session()
    ensures
        WebSocketState::spec_initial().session is None,
        WebSocketState::spec_initial().status() == status_of(false, false),
{
}

/// The registration frames a handshake writes over a sequence of rounds,
/// each round being the connection state it reads and whether its write
/// succeeded.
pub open spec fn sends(h: RegistrationHandshake, rounds: Seq<(WebSocketState, bool)>) -> nat
    decreases rounds.len(),
{
    if rounds.len() == 0 {
        0
    } else {
        let (state, ok) = rounds[0];
        (if h.spec_end(state) is None { 1nat } else { 0nat }) + sends(h.spec_round(state, ok), rounds.drop_first())
    }
}

/// Once a handshake has an outcome it writes nothing more.
pub proof fn lemma_finished_handshake_sends_nothing(h: RegistrationHandshake, rounds: Seq<(WebSocketState, bool)>)
    requires
        h.outcome is Some,
    ensures
        sends(h, rounds) == 0,
    decreases rounds.len(),
{
    if rounds.len() > 0 {
        let (state, ok) = rounds[0];
        lemma_finished_handshake_sends_nothing(h.spec_round(state, ok), rounds.drop_first());
    }
}

/// However the connection evolves and the writes go, a handshake writes at
/// most as many registration frames as it has attempts left, so a new one
/// writes at most ten and sleeps at most ten intervals.
pub proof fn lemma_handshake_bounded(h: RegistrationHandshake, rounds: Seq<(WebSocketState, bool)>)
    requires
        h.attempts <= MAX_REGISTRATION_ATTEMPTS,
    ensures
        sends(h, rounds) <= MAX_REGISTRATION_ATTEMPTS - h.attempts,
        sends(h, rounds) * REGISTRATION_INTERVAL_MS <= MAX_REGISTRATION_ATTEMPTS * REGISTRATION_INTERVAL_MS,
    decreases rounds.len(),
{
    if rounds.len() > 0 {
        let (state, ok) = rounds[0];
        let next = h.spec_round(state, ok);
        if h.spec_end(state) is Some {
            lemma_finished_handshake_sends_nothing(next, rounds.drop_first());
        } else {
            lemma_handshake_bounded(next, rounds.drop_first());
        }
    }
    assert(sends(h, rounds) * REGISTRATION_INTERVAL_MS <= MAX_REGISTRATION_ATTEMPTS * REGISTRATION_INTERVAL_MS) by (nonlinear_arith)
        requires
            sends(h, rounds) <= MAX_REGISTRATION_ATTEMPTS - h.attempts,
            h.attempts >= 0,
    ;
}

/// The connection state after a sequence of supervisor inputs.
pub open spec fn supervise(phase: SupervisorPhase, state: WebSocketState, inputs: Seq<SupervisorInput>) -> WebSocketState
    decreases inputs.len(),
{
    if inputs.len() == 0 {
        state
    } else {
        supervise(
            Supervisor::spec_phase(phase, state, inputs[0]),
            Supervisor::spec_state(phase, state, inputs[0]),
            inputs.drop_first(),
        )
    }
}

/// Until an open succeeds the reconnect loop leaves the connection state as
/// it was, so a disconnected state keeps reporting disconnected through any
/// number of failed opens, each answered by a wait of the reconnect delay.
pub proof fn lemma_failed_opens_stay_disconnected(phase: SupervisorPhase, state: WebSocketState, inputs: Seq<SupervisorInput>)
    requires
        forall|i: int| 0 <= i < inputs.len() ==> inputs[i] != SupervisorInput::OpenSucceeded,
    ensures
        supervise(phase, state, inputs) == state,
        Supervisor::spec_action(SupervisorPhase::Opening, state, SupervisorInput::OpenFailed)
            == SupervisorAction::Wait(RECONNECT_DELAY_MS),
    decreases inputs.len(),
{
    if inputs.len() > 0 {
        assert(inputs[0] != SupervisorInput::OpenSucceeded);
        lemma_failed_opens_stay_disconnected(
            Supervisor::spec_phase(phase, state, inputs[0]),
            state,
            inputs.drop_first(),
        );
    }
}

} // verus!
