//! The entry points that callers of the connection manager use: status
//! queries, sends and disconnection. Each runs under the state lock and
//! tells the caller which I/O, if any, to perform after releasing it.
use crate::connection::{no_stream_text, not_connected_text, status_of, WebSocketState};
use crate::models::WebSocketStatus;
use crate::supervisor::Supervisor;
use vstd::prelude::*;
use vstd::string::StringExecFns;

verus! {

pub struct WebSocketService;

impl WebSocketService {
    /// Starts a supervisor; the caller runs it in the background and returns
    /// at once, before any connection is made.
    pub fn connect() -> (r: Supervisor)
        ensures
            r == Supervisor::spec_new(),
    {
        Supervisor::new()
    }

    pub fn get_status(state: &WebSocketState) -> (r: WebSocketStatus)
        ensures
            r == state.status(),
    {
        state.status_snapshot()
    }

    /// Forgets the session and reports the disconnection. The returned
    /// session, if any, is to be closed (best effort) after the lock is
    /// released; the message pump reading it then ends on its own and
    /// converges on the same state.
    pub fn disconnect(state: &mut WebSocketState) -> (r: (Option<u64>, WebSocketStatus))
        ensures
            *final(state) == old(state).spec_cleared(),
            r.0 == old(state).session,
            r.1 == status_of(false, false),
            final(state).wf(),
    {
        let taken = state.session;
        let status = state.close_session();
        (taken, status)
    }

    /// The session a text message is to be written on, or the not-connected
    /// error when there is none.
    pub fn send_message(state: &WebSocketState) -> (r: Result<u64, String>)
        ensures
            match r {
                Ok(id) => state.session == Some(id),
                Err(e) => state.session is None && e@ == not_connected_text(),
            },
    {
        match state.session {
            Some(id) => Ok(id),
            None => Err(String::from_str("WebSocket not connected")),
        }
    }

    /// The session a binary frame is to be written on, or the not-connected
    /// error when there is none.
    pub fn send_binary_data(state: &WebSocketState) -> (r: Result<u64, String>)
        ensures
            match r {
                Ok(id) => state.session == Some(id),
                Err(e) => state.session is None && e@ == no_stream_text(),
            },
    {
        match state.session {
            Some(id) => Ok(id),
            None => Err(String::from_str("WebSocket not connected - No stream available.")),
        }
    }
}

} // verus!
