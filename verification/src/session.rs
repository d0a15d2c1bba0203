//! The agent session manager: the lifecycle of the one connection to a remote
//! agent.
//!
//! The manager never touches the network. Its caller performs the handshake
//! and reports the outcome; the manager decides the next state and names the
//! transport that has to be released.

use vstd::prelude::*;
use vstd::string::*;
use crate::error::{CoreError, ErrorView};

verus! {

/// Token for a transport that the caller has opened. The manager stores it and
/// hands it back; it never looks inside.
#[derive(Debug, Clone, Copy, PartialEq, Eq, Structural)]
pub struct TransportHandle {
    pub id: u64,
}

/// Where a session stands in its lifecycle.
#[derive(Debug, Clone, Copy, PartialEq, Eq, Structural)]
pub enum SessionState {
    Disconnected,
    Connecting,
    Connected,
}

/// A live link to one agent: its address and the transport that carries it.
#[derive(Debug, Clone, PartialEq, Eq)]
pub struct AgentSession {
    pub address: String,
    pub transport: TransportHandle,
}

/// Mathematical model of an [`AgentSession`].
pub struct SessionView {
    pub address: Seq<char>,
    pub transport: TransportHandle,
}

impl View for AgentSession {
    type V = SessionView;

    open spec fn view(&self) -> SessionView {
        SessionView { address: self.address@, transport: self.transport }
    }
}

/// What the caller's handshake with an agent came to.
#[derive(Debug, Clone, PartialEq, Eq)]
pub enum HandshakeOutcome {
    /// The transport is open.
    Established(TransportHandle),
    /// The address did not resolve or the handshake failed, for this reason.
    Failed(String),
}

/// Mathematical model of a [`HandshakeOutcome`].
pub enum HandshakeView {
    Established(TransportHandle),
    Failed(Seq<char>),
}

impl View for HandshakeOutcome {
    type V = HandshakeView;

    open spec fn view(&self) -> HandshakeView {
        match *self {
            HandshakeOutcome::Established(transport) => HandshakeView::Established(transport),
            HandshakeOutcome::Failed(reason) => HandshakeView::Failed(reason@),
        }
    }
}

/// Mathematical model of a [`SessionManager`]. A transport is held exactly in
/// `Connected`, and an address exactly in `Connecting` and `Connected`, so no
/// value of this type mixes two sessions.
pub enum ManagerView {
    Disconnected,
    Connecting { address: Seq<char> },
    Connected { address: Seq<char>, transport: TransportHandle },
}

/// Reason reported for a handshake outcome that arrives while no connection
/// attempt is in progress.
pub open spec fn stale_handshake_reason() -> Seq<char> {
    "no connection attempt in progress"@
}

impl ManagerView {
    /// The lifecycle state.
    pub open spec fn state(self) -> SessionState {
        match self {
            ManagerView::Disconnected => SessionState::Disconnected,
            ManagerView::Connecting { .. } => SessionState::Connecting,
            ManagerView::Connected { .. } => SessionState::Connected,
        }
    }

    /// The address being connected to or connected; empty when disconnected.
    pub open spec fn address(self) -> Seq<char> {
        match self {
            ManagerView::Disconnected => Seq::empty(),
            ManagerView::Connecting { address } => address,
            ManagerView::Connected { address, .. } => address,
        }
    }

    /// The transport the manager holds, if any.
    pub open spec fn held_transport(self) -> Option<TransportHandle> {
        match self {
            ManagerView::Connected { transport, .. } => Some(transport),
            _ => None,
        }
    }

    /// The connected session, if there is one.
    pub open spec fn active(self) -> Option<SessionView> {
        match self {
            ManagerView::Connected { address, transport } => Some(
                SessionView { address, transport },
            ),
            _ => None,
        }
    }

    /// State after a connection attempt to `address` has started.
    pub open spec fn begin_connect(self, address: Seq<char>) -> ManagerView {
        ManagerView::Connecting { address }
    }

    /// State after the handshake outcome has been taken in.
    pub open spec fn finish_connect(self, outcome: HandshakeView) -> ManagerView {
        match self {
            ManagerView::Connecting { address } => match outcome {
                HandshakeView::Established(transport) => ManagerView::Connected {
                    address,
                    transport,
                },
                HandshakeView::Failed(_) => ManagerView::Disconnected,
            },
            _ => self,
        }
    }

    /// What taking in the handshake outcome reports.
    pub open spec fn finish_result(self, outcome: HandshakeView) -> Result<SessionView, ErrorView> {
        match self {
            ManagerView::Connecting { address } => match outcome {
                HandshakeView::Established(transport) => Ok(SessionView { address, transport }),
                HandshakeView::Failed(reason) => Err(ErrorView::Connection { address, reason }),
            },
            _ => Err(
                ErrorView::Connection { address: self.address(), reason: stale_handshake_reason() },
            ),
        }
    }

    /// The transport that taking in the handshake outcome leaves for the
    /// caller to release: the one just opened, where nothing waited for it.
    pub open spec fn finish_release(self, outcome: HandshakeView) -> Option<TransportHandle> {
        match (self, outcome) {
            (ManagerView::Connecting { .. }, _) => None,
            (_, HandshakeView::Established(transport)) => Some(transport),
            (_, HandshakeView::Failed(_)) => None,
        }
    }

    /// State after a whole connection attempt to `address` with this outcome.
    pub open spec fn connect(self, address: Seq<char>, outcome: HandshakeView) -> ManagerView {
        self.begin_connect(address).finish_connect(outcome)
    }

    /// What a whole connection attempt to `address` reports.
    pub open spec fn connect_result(self, address: Seq<char>, outcome: HandshakeView) -> Result<
        SessionView,
        ErrorView,
    > {
        self.begin_connect(address).finish_result(outcome)
    }

    /// State after a disconnect.
    pub open spec fn disconnect(self) -> ManagerView {
        ManagerView::Disconnected
    }
}

/// Model of the result of a connection attempt.
pub open spec fn session_result_view(result: Result<AgentSession, CoreError>) -> Result<
    SessionView,
    ErrorView,
> {
    match result {
        Ok(session) => Ok(session@),
        Err(error) => Err(error@),
    }
}

/// Model of an optional session.
pub open spec fn session_option_view(session: Option<AgentSession>) -> Option<SessionView> {
    match session {
        Some(session) => Some(session@),
        None => None,
    }
}

/// What a step of a connection attempt hands back to the caller.
#[derive(Debug, PartialEq, Eq)]
pub struct ConnectReport {
    /// The session now connected, or why there is none.
    pub result: Result<AgentSession, CoreError>,
    /// A transport that the manager no longer holds and the caller must close.
    pub release: Option<TransportHandle>,
}

enum Link {
    Disconnected,
    Connecting { address: String },
    Connected { address: String, transport: TransportHandle },
}

/// Owner of the connection state toward the remote agent. At most one session
/// is live at any time.
pub struct SessionManager {
    link: Link,
}

impl View for SessionManager {
    type V = ManagerView;

    closed spec fn view(&self) -> ManagerView {
        match self.link {
            Link::Disconnected => ManagerView::Disconnected,
            Link::Connecting { address } => ManagerView::Connecting { address: address@ },
            Link::Connected { address, transport } => ManagerView::Connected {
                address: address@,
                transport,
            },
        }
    }
}

impl SessionManager {
    /// A manager with no session.
    pub fn new() -> (manager: SessionManager)
        ensures
            manager@ == ManagerView::Disconnected,
    {
        SessionManager { link: Link::Disconnected }
    }

    /// The lifecycle state.
    pub fn state(&self) -> (state: SessionState)
        ensures
            state == self@.state(),
    {
        match &self.link {
            Link::Disconnected => SessionState::Disconnected,
            Link::Connecting { .. } => SessionState::Connecting,
            Link::Connected { .. } => SessionState::Connected,
        }
    }

    /// The connected session, or `None` where no session is connected.
    pub fn active_session(&self) -> (session: Option<AgentSession>)
        ensures
            session_option_view(session) == self@.active(),
    {
        match &self.link {
            Link::Connected { address, transport } => Some(
                AgentSession { address: address.clone(), transport: *transport },
            ),
            _ => None,
        }
    }

    /// Starts a connection attempt to `address`. A session that was connected,
    /// to this address or another, is given up first: its transport is
    /// returned for the caller to close.
    pub fn begin_connect(&mut self, address: String) -> (release: Option<TransportHandle>)
        ensures
            final(self)@ == old(self)@.begin_connect(address@),
            release == old(self)@.held_transport(),
    {
        let release = match &self.link {
            Link::Connected { transport, .. } => Some(*transport),
            _ => None,
        };
        self.link = Link::Connecting { address };
        release
    }

    /// Takes in the outcome of the handshake. While connecting, success makes
    /// the session connected and failure returns to disconnected with a
    /// connection error. In any other state nothing waits for the outcome: the
    /// state stays, a transport that was opened is handed back for release, and
    /// a connection error is reported.
    pub fn finish_connect(&mut self, outcome: HandshakeOutcome) -> (report: ConnectReport)
        ensures
            final(self)@ == old(self)@.finish_connect(outcome@),
            session_result_view(report.result) == old(self)@.finish_result(outcome@),
            report.release == old(self)@.finish_release(outcome@),
    {
        match &self.link {
            Link::Connecting { address } => {
                let address = address.clone();
                match outcome {
                    HandshakeOutcome::Established(transport) => {
                        self.link = Link::Connected { address: address.clone(), transport };
                        ConnectReport {
                            result: Ok(AgentSession { address, transport }),
                            release: None,
                        }
                    },
                    HandshakeOutcome::Failed(reason) => {
                        self.link = Link::Disconnected;
                        ConnectReport {
                            result: Err(CoreError::Connection { address, reason }),
                            release: None,
                        }
                    },
                }
            },
            Link::Connected { address, .. } => stale_report(address.clone(), outcome),
            Link::Disconnected => stale_report(String::new(), outcome),
        }
    }

    /// A whole connection attempt: gives up the current session, then takes in
    /// the outcome of the handshake with `address`.
    pub fn connect(&mut self, address: String, outcome: HandshakeOutcome) -> (report: ConnectReport)
        ensures
            final(self)@ == old(self)@.connect(address@, outcome@),
            session_result_view(report.result) == old(self)@.connect_result(address@, outcome@),
            report.release == old(self)@.held_transport(),
    {
        let release = self.begin_connect(address);
        let finished = self.finish_connect(outcome);
        ConnectReport { result: finished.result, release }
    }

    /// Ends the session from any state. The transport that was held, if any,
    /// is returned for the caller to close. A second call changes nothing.
    pub fn disconnect(&mut self) -> (release: Option<TransportHandle>)
        ensures
            final(self)@ == old(self)@.disconnect(),
            release == old(self)@.held_transport(),
    {
        let release = match &self.link {
            Link::Connected { transport, .. } => Some(*transport),
            _ => None,
        };
        self.link = Link::Disconnected;
        release
    }
}

/// The report for a handshake outcome that nothing waited for.
fn stale_report(address: String, outcome: HandshakeOutcome) -> (report: ConnectReport)
    ensures
        session_result_view(report.result) == Err::<SessionView, ErrorView>(
            ErrorView::Connection { address: address@, reason: stale_handshake_reason() },
        ),
        report.release == match outcome@ {
            HandshakeView::Established(transport) => Some(transport),
            HandshakeView::Failed(_) => None,
        },
{
    let release = match outcome {
        HandshakeOutcome::Established(transport) => Some(transport),
        HandshakeOutcome::Failed(_) => None,
    };
    let reason = String::from_str("no connection attempt in progress");
    ConnectReport { result: Err(CoreError::Connection { address, reason }), release }
}

} // verus!
