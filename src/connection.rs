//! Shared connection state, the inbound frame dispatcher and the status and
//! send facade.
//!
//! Every transition below is what happens under the state lock: the caller
//! takes the lock, calls one of these functions, releases the lock and then
//! performs the returned I/O (publish an event, close or write a session).
//! Sessions are named by a number handed out when the transport opens, so a
//! handle that outlived its session can be told apart from the current one.
use crate::models::WebSocketStatus;
use vstd::prelude::*;
use vstd::string::StringExecFns;

verus! {

/// The application-level confirmation of a registration.
pub open spec fn registered_reply() -> Seq<char> {
    "registered"@
}

/// The heartbeat reply, which carries nothing for the UI.
pub open spec fn heartbeat_reply() -> Seq<char> {
    "pong"@
}

pub open spec fn not_connected_text() -> Seq<char> {
    "WebSocket not connected"@
}

pub open spec fn no_stream_text() -> Seq<char> {
    "WebSocket not connected - No stream available."@
}

/// What the connection manager knows of the current connection.
#[derive(PartialEq, Eq, Structural, Clone, Copy, Debug)]
pub struct WebSocketState {
    /// The active session, absent while disconnected.
    pub session: Option<u64>,
    pub is_connected: bool,
    pub is_registered: bool,
    /// The number the next opened session receives.
    pub next_session: u64,
}

/// A frame read from the active session, or its end (a close frame, the peer
/// going away, or a read error all end the session alike).
#[derive(PartialEq, Eq, Debug)]
pub enum Frame {
    Text(String),
    Binary(Vec<u8>),
    Close,
}

/// An event for the UI.
#[derive(PartialEq, Eq, Debug)]
pub enum SinkEvent {
    Status(WebSocketStatus),
    Message(String),
    Binary(Vec<u8>),
}

/// What the message pump does after one frame.
#[derive(PartialEq, Eq, Debug)]
pub enum PumpStep {
    /// Keep reading; publish the event if there is one.
    Continue(Option<SinkEvent>),
    /// The session is over: publish this event and leave the loop.
    Exit(SinkEvent),
}

pub open spec fn status_of(connected: bool, registered: bool) -> WebSocketStatus {
    WebSocketStatus { connected, registered }
}

pub open spec fn successor(n: u64) -> u64 {
    if n == u64::MAX {
        0
    } else {
        (n + 1) as u64
    }
}

impl WebSocketState {
    /// Registered implies connected, and a session is held exactly while
    /// connected.
    pub open spec fn wf(&self) -> bool {
        &&& self.is_registered ==> self.is_connected
        &&& (self.session is Some <==> self.is_connected)
    }

    pub open spec fn status(&self) -> WebSocketStatus {
        status_of(self.is_connected, self.is_registered)
    }

    pub open spec fn is_current(&self, session: u64) -> bool {
        self.session == Some(session)
    }

    pub open spec fn spec_initial() -> WebSocketState {
        WebSocketState { session: None, is_connected: false, is_registered: false, next_session: 0 }
    }

    /// A new session opened by the transport: connected, not yet registered.
    pub open spec fn spec_opened(self) -> WebSocketState {
        WebSocketState {
            session: Some(self.next_session),
            is_connected: true,
            is_registered: false,
            next_session: successor(self.next_session),
        }
    }

    /// Every field reset but the session counter.
    pub open spec fn spec_cleared(self) -> WebSocketState {
        WebSocketState { session: None, is_connected: false, is_registered: false, ..self }
    }

    /// The effect of a text frame read on `session`: only the confirmation,
    /// read on the current session, changes anything.
    pub open spec fn spec_text(self, session: u64, text: Seq<char>) -> WebSocketState {
        if text == registered_reply() && self.is_current(session) {
            WebSocketState { is_registered: true, ..self }
        } else {
            self
        }
    }

    pub fn new() -> (r: WebSocketState)
        ensures
            r == WebSocketState::spec_initial(),
            r.wf(),
    {
        WebSocketState { session: None, is_connected: false, is_registered: false, next_session: 0 }
    }

    pub fn status_snapshot(&self) -> (r: WebSocketStatus)
        ensures
            r == self.status(),
    {
        WebSocketStatus { connected: self.is_connected, registered: self.is_registered }
    }

    /// Whether `session` is the active one; a write through a handle of an
    /// older session must not go ahead.
    pub fn is_current_session(&self, session: u64) -> (r: bool)
        ensures
            r == self.is_current(session),
    {
        match self.session {
            Some(s) => s == session,
            None => false,
        }
    }

    /// Records a freshly opened transport session and returns its number with
    /// the status to publish.
    pub fn open_session(&mut self) -> (r: (u64, WebSocketStatus))
        ensures
            *final(self) == old(self).spec_opened(),
            r.0 == old(self).next_session,
            r.1 == status_of(true, false),
            final(self).wf(),
    {
        let id = self.next_session;
        self.session = Some(id);
        self.is_connected = true;
        self.is_registered = false;
        self.next_session = if id == u64::MAX {
            0
        } else {
            id + 1
        };
        (id, WebSocketStatus { connected: true, registered: false })
    }

    /// Clears the connection and returns the status to publish; the one
    /// place where the end of a session is recorded.
    pub fn close_session(&mut self) -> (r: WebSocketStatus)
        ensures
            *final(self) == old(self).spec_cleared(),
            r == status_of(false, false),
            final(self).wf(),
    {
        self.session = None;
        self.is_connected = false;
        self.is_registered = false;
        WebSocketStatus { connected: false, registered: false }
    }

    /// Classifies one text frame read on `session`.
    pub fn on_text(&mut self, session: u64, text: String) -> (r: Option<SinkEvent>)
        requires
            old(self).wf(),
        ensures
            *final(self) == old(self).spec_text(session, text@),
            final(self).wf(),
            text@ == registered_reply() && old(self).is_current(session) ==> r == Some(
                SinkEvent::Status(status_of(true, true)),
            ),
            text@ == registered_reply() && !old(self).is_current(session) ==> r is None,
            text@ == heartbeat_reply() ==> r is None,
            text@ != registered_reply() && text@ != heartbeat_reply() ==> r == Some(
                SinkEvent::Message(text),
            ),
    {
        let registered = String::from_str("registered");
        let pong = String::from_str("pong");
        proof {
            reveal_strlit("registered");
            reveal_strlit("pong");
            assert(registered_reply() != heartbeat_reply()) by {
                assert(registered_reply()[0] != heartbeat_reply()[0]);
            }
        }
        if text == registered {
            if self.is_current_session(session) {
                self.is_registered = true;
                Some(SinkEvent::Status(WebSocketStatus { connected: true, registered: true }))
            } else {
                None
            }
        } else if text == pong {
            None
        } else {
            Some(SinkEvent::Message(text))
        }
    }

    /// Routes one frame read on `session`. Text goes through `on_text`,
    /// binary data is forwarded as it is, and the end of the session clears
    /// the state and announces the disconnection.
    pub fn on_frame(&mut self, session: u64, frame: Frame) -> (r: PumpStep)
        requires
            old(self).wf(),
        ensures
            final(self).wf(),
            match frame {
                Frame::Text(t) => {
                    &&& *final(self) == old(self).spec_text(session, t@)
                    &&& r is Continue
                    &&& (t@ == registered_reply() && old(self).is_current(session)
                        ==> r == PumpStep::Continue(Some(SinkEvent::Status(status_of(true, true)))))
                    &&& (t@ == registered_reply() && !old(self).is_current(session)
                        ==> r == PumpStep::Continue(None))
                    &&& (t@ == heartbeat_reply() ==> r == PumpStep::Continue(None))
                    &&& (t@ != registered_reply() && t@ != heartbeat_reply()
                        ==> r == PumpStep::Continue(Some(SinkEvent::Message(t))))
                },
                Frame::Binary(b) => {
                    &&& *final(self) == *old(self)
                    &&& r == PumpStep::Continue(Some(SinkEvent::Binary(b)))
                },
                Frame::Close => {
                    &&& *final(self) == old(self).spec_cleared()
                    &&& r == PumpStep::Exit(SinkEvent::Status(status_of(false, false)))
                },
            },
    {
        match frame {
            Frame::Text(t) => PumpStep::Continue(self.on_text(session, t)),
            Frame::Binary(b) => PumpStep::Continue(Some(SinkEvent::Binary(b))),
            Frame::Close => PumpStep::Exit(SinkEvent::Status(self.close_session())),
        }
    }
}

} // verus!
