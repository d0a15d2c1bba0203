//! Laws of the core: what holds of its operations taken together, for every
//! state and every input.

use vstd::prelude::*;
use crate::dispatch::{read_reply, send_reply};
use crate::error::{no_active_session_text, ErrorView};
use crate::files::{read_model, FileView};
use crate::router::{route_reply, route_state, SendView};
use crate::session::{HandshakeView, ManagerView, SessionState, SessionView, TransportHandle};

verus! {

/// A send before any connect fails with the missing session, whatever the
/// message and whatever the transmission would have come to, and leaves the
/// manager disconnected.
pub proof fn send_before_connect_fails(content: Seq<char>, outcome: SendView)
    ensures
        route_reply(ManagerView::Disconnected, content, outcome) == Err::<Seq<char>, ErrorView>(
            ErrorView::NoActiveSession,
        ),
        send_reply(ManagerView::Disconnected, content, outcome) == Err::<Seq<char>, Seq<char>>(
            no_active_session_text(),
        ),
        route_state(ManagerView::Disconnected, outcome) == ManagerView::Disconnected,
{
}

/// A send succeeds only through a connected session: in every other state it
/// fails with the missing session and changes nothing.
pub proof fn send_needs_connected_session(manager: ManagerView, content: Seq<char>, outcome: SendView)
    requires
        manager.state() != SessionState::Connected,
    ensures
        route_reply(manager, content, outcome) == Err::<Seq<char>, ErrorView>(
            ErrorView::NoActiveSession,
        ),
        route_state(manager, outcome) == manager,
{
}

/// After a connect to `address` whose handshake succeeded, from any state, the
/// active session is the connected one for `address`, on the transport the
/// handshake opened.
pub proof fn connect_makes_session_active(
    manager: ManagerView,
    address: Seq<char>,
    transport: TransportHandle,
)
    ensures
        manager.connect(address, HandshakeView::Established(transport)).state()
            == SessionState::Connected,
        manager.connect(address, HandshakeView::Established(transport)).active() == Some(
            SessionView { address, transport },
        ),
        manager.connect_result(address, HandshakeView::Established(transport)) == Ok::<
            SessionView,
            ErrorView,
        >(SessionView { address, transport }),
{
}

/// After a connect whose handshake failed, from any state, the manager is
/// disconnected, no session is active, and the connection error names the
/// address and the reason.
pub proof fn failed_connect_ends_disconnected(
    manager: ManagerView,
    address: Seq<char>,
    reason: Seq<char>,
)
    ensures
        manager.connect(address, HandshakeView::Failed(reason)) == ManagerView::Disconnected,
        manager.connect(address, HandshakeView::Failed(reason)).active() is None,
        manager.connect_result(address, HandshakeView::Failed(reason)) == Err::<
            SessionView,
            ErrorView,
        >(ErrorView::Connection { address, reason }),
{
}

/// After a disconnect, from any state, no session is active; and a further
/// disconnect changes nothing and has no transport left to release.
pub proof fn disconnect_is_idempotent(manager: ManagerView)
    ensures
        manager.disconnect().state() == SessionState::Disconnected,
        manager.disconnect().active() is None,
        manager.disconnect().disconnect() == manager.disconnect(),
        manager.disconnect().held_transport() is None,
{
}

/// Two connects, taken one after the other in either order, end in the state
/// that the later one alone decides: connected to the later address on the
/// later transport where its handshake succeeded, disconnected where it
/// failed. Nothing of the earlier connect is left in the state.
pub proof fn last_connect_wins(
    manager: ManagerView,
    first: Seq<char>,
    first_outcome: HandshakeView,
    second: Seq<char>,
    second_outcome: HandshakeView,
)
    ensures
        manager.connect(first, first_outcome).connect(second, second_outcome) == match second_outcome {
            HandshakeView::Established(transport) => ManagerView::Connected {
                address: second,
                transport,
            },
            HandshakeView::Failed(_) => ManagerView::Disconnected,
        },
        manager.connect(first, first_outcome).connect(second, second_outcome)
            == ManagerView::Disconnected.connect(second, second_outcome),
        manager.connect(first, first_outcome).connect(second, second_outcome).state()
            != SessionState::Connecting,
{
}

/// A whole connect never leaves a transport unaccounted for: the one held
/// before it is exactly the one handed back for release, and the one held
/// after it is exactly the one the handshake opened.
pub proof fn connect_accounts_for_transports(
    manager: ManagerView,
    address: Seq<char>,
    outcome: HandshakeView,
)
    ensures
        manager.begin_connect(address).held_transport() is None,
        manager.begin_connect(address).finish_release(outcome) is None,
        manager.connect(address, outcome).held_transport() == match outcome {
            HandshakeView::Established(transport) => Some(transport),
            HandshakeView::Failed(_) => None,
        },
{
}

/// A read that the filesystem fails, as it does for a path that does not
/// exist, gives a read error with the path and the reason, and the text of
/// that error at the dispatcher.
pub proof fn failed_read_is_read_error(path: Seq<char>, reason: Seq<char>)
    ensures
        read_model(path, Err(reason)) == Err::<FileView, ErrorView>(
            ErrorView::FileRead { path, reason },
        ),
        read_reply(path, Err(reason)) == Err::<Seq<char>, Seq<char>>(
            ErrorView::FileRead { path, reason }.message(),
        ),
{
}

/// The read side passes content through unchanged: what the filesystem holds
/// at `path` is what the gateway and the dispatcher return.
pub proof fn read_passes_content_through(path: Seq<char>, content: Seq<char>)
    ensures
        read_model(path, Ok(content)) == Ok::<FileView, ErrorView>(
            FileView::Content { path, content },
        ),
        read_reply(path, Ok(content)) == Ok::<Seq<char>, Seq<char>>(content),
{
}

} // verus!
