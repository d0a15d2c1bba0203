//! The message router: delivers a message through the connected session and
//! normalizes what came back.
//!
//! The caller owns the wire. It asks [`outbound`] what to transmit and on which
//! transport, transmits, and reports what happened to [`route`].

use vstd::prelude::*;
use vstd::string::*;
use crate::error::{CoreError, ErrorView};
use crate::session::{ManagerView, SessionManager, TransportHandle};

verus! {

/// A payload exchanged with an agent. The shell is always the sender; the
/// agent at `recipient` is the addressee.
#[derive(Debug, Clone, PartialEq, Eq)]
pub struct FamilyMessage {
    pub recipient: String,
    pub content: String,
}

/// Mathematical model of a [`FamilyMessage`].
pub struct MessageView {
    pub recipient: Seq<char>,
    pub content: Seq<char>,
}

impl View for FamilyMessage {
    type V = MessageView;

    open spec fn view(&self) -> MessageView {
        MessageView { recipient: self.recipient@, content: self.content@ }
    }
}

/// A message together with the transport that has to carry it.
#[derive(Debug, Clone, PartialEq, Eq)]
pub struct Outbound {
    pub transport: TransportHandle,
    pub message: FamilyMessage,
}

/// Mathematical model of an [`Outbound`].
pub struct OutboundView {
    pub transport: TransportHandle,
    pub message: MessageView,
}

impl View for Outbound {
    type V = OutboundView;

    open spec fn view(&self) -> OutboundView {
        OutboundView { transport: self.transport, message: self.message@ }
    }
}

/// What became of a transmission.
#[derive(Debug, Clone, PartialEq, Eq)]
pub enum SendOutcome {
    /// The agent answered with this text.
    Acknowledged(String),
    /// The message went out and the agent produced no reply.
    Unanswered,
    /// The transport failed, for this reason; the session is lost.
    Dropped(String),
}

/// Mathematical model of a [`SendOutcome`].
pub enum SendView {
    Acknowledged(Seq<char>),
    Unanswered,
    Dropped(Seq<char>),
}

impl View for SendOutcome {
    type V = SendView;

    open spec fn view(&self) -> SendView {
        match *self {
            SendOutcome::Acknowledged(text) => SendView::Acknowledged(text@),
            SendOutcome::Unanswered => SendView::Unanswered,
            SendOutcome::Dropped(reason) => SendView::Dropped(reason@),
        }
    }
}

/// What has to be transmitted for `content`: the message addressed to the
/// connected agent, on the session's transport; or the failure, with no
/// session connected.
pub open spec fn outbound_model(manager: ManagerView, content: Seq<char>) -> Result<
    OutboundView,
    ErrorView,
> {
    match manager {
        ManagerView::Connected { address, transport } => Ok(
            OutboundView { transport, message: MessageView { recipient: address, content } },
        ),
        _ => Err(ErrorView::NoActiveSession),
    }
}

/// The session state after a transmission: a dropped transport ends the
/// connected session, and nothing else changes the state.
pub open spec fn route_state(manager: ManagerView, outcome: SendView) -> ManagerView {
    match (manager, outcome) {
        (ManagerView::Connected { .. }, SendView::Dropped(_)) => ManagerView::Disconnected,
        _ => manager,
    }
}

/// The normalized result of routing `content`: the agent's acknowledgment,
/// `content` itself where the agent gave no reply, a connection error where
/// the transport dropped, and the missing session before all of these.
pub open spec fn route_reply(manager: ManagerView, content: Seq<char>, outcome: SendView) -> Result<
    Seq<char>,
    ErrorView,
> {
    match manager {
        ManagerView::Connected { address, .. } => match outcome {
            SendView::Acknowledged(text) => Ok(text),
            SendView::Unanswered => Ok(content),
            SendView::Dropped(reason) => Err(ErrorView::Connection { address, reason }),
        },
        _ => Err(ErrorView::NoActiveSession),
    }
}

/// Model of the result of [`outbound`].
pub open spec fn outbound_result_view(result: Result<Outbound, CoreError>) -> Result<
    OutboundView,
    ErrorView,
> {
    match result {
        Ok(outbound) => Ok(outbound@),
        Err(error) => Err(error@),
    }
}

/// Model of the result of [`route`].
pub open spec fn text_result_view(result: Result<String, CoreError>) -> Result<
    Seq<char>,
    ErrorView,
> {
    match result {
        Ok(text) => Ok(text@),
        Err(error) => Err(error@),
    }
}

/// Wraps `content` into the message for the connected agent and names the
/// transport to send it on. Fails where no session is connected.
pub fn outbound(manager: &SessionManager, content: String) -> (result: Result<Outbound, CoreError>)
    ensures
        outbound_result_view(result) == outbound_model(manager@, content@),
{
    match manager.active_session() {
        Some(session) => Ok(
            Outbound {
                transport: session.transport,
                message: FamilyMessage { recipient: session.address, content },
            },
        ),
        None => Err(CoreError::NoActiveSession),
    }
}

/// Routes `content` through the connected session, given what became of the
/// transmission. With no session connected the outcome is not looked at and
/// the state stays as it is. The caller closes a transport that it reports as
/// dropped.
pub fn route(manager: &mut SessionManager, content: String, outcome: SendOutcome) -> (result: Result<
    String,
    CoreError,
>)
    ensures
        final(manager)@ == route_state(old(manager)@, outcome@),
        text_result_view(result) == route_reply(old(manager)@, content@, outcome@),
{
    match manager.active_session() {
        None => Err(CoreError::NoActiveSession),
        Some(session) => match outcome {
            SendOutcome::Acknowledged(text) => Ok(text),
            SendOutcome::Unanswered => Ok(content),
            SendOutcome::Dropped(reason) => {
                let _ = manager.disconnect();
                Err(CoreError::Connection { address: session.address, reason })
            },
        },
    }
}

} // verus!
