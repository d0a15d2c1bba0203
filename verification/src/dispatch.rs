//! The command dispatcher: the five operations the shell can invoke.
//!
//! Each operation hands its arguments to the component that owns the work and
//! turns the structured outcome into the success string or the error string
//! that the shell displays. The dispatcher keeps nothing between calls.

use vstd::prelude::*;
use vstd::string::*;
use crate::error::{connection_failure_text, read_failure_text, write_failure_text};
use crate::files::{read_answer_view, write_answer_view, FileOperationResult, FileView};
use crate::router::{route_reply, route_state, SendOutcome, SendView};
use crate::session::{HandshakeOutcome, HandshakeView, ManagerView, SessionManager};
use crate::session::TransportHandle;

verus! {

/// The fixed welcome text.
pub open spec fn greeting_text() -> Seq<char> {
    "💜 Welcome to Mama Bear's Beautiful Family IDE! Ready to code with LOVE! 💜"@
}

/// Confirmation shown once the session to `address` is connected.
pub open spec fn connect_success_text(address: Seq<char>) -> Seq<char> {
    "🦍 Connected to Papa Bear at "@ + address + "! Family coordination ACTIVE! 💜"@
}

/// Acknowledgment shown for a message that was routed, around the text the
/// router returned.
pub open spec fn send_success_text(routed: Seq<char>) -> Seq<char> {
    "🐻 Mama Bear received: '"@ + routed + "' - sending to family with LOVE! 💜"@
}

/// Confirmation shown once the file at `path` is written.
pub open spec fn write_success_text(path: Seq<char>) -> Seq<char> {
    "💜 Successfully wrote to "@ + path + " with LOVE! ✨"@
}

/// Model of a reply to the shell.
pub open spec fn reply_view(reply: Result<String, String>) -> Result<Seq<char>, Seq<char>> {
    match reply {
        Ok(text) => Ok(text@),
        Err(text) => Err(text@),
    }
}

/// The reply to a connect command for `address`: the confirmation where the
/// handshake succeeded, the text of the connection error where it failed.
pub open spec fn connect_reply(address: Seq<char>, outcome: HandshakeView) -> Result<
    Seq<char>,
    Seq<char>,
> {
    match outcome {
        HandshakeView::Established(_) => Ok(connect_success_text(address)),
        HandshakeView::Failed(reason) => Err(connection_failure_text(address, reason)),
    }
}

/// The reply to a send command for `content`: the acknowledgment around what
/// the router returned, or the text of the router's error.
pub open spec fn send_reply(manager: ManagerView, content: Seq<char>, outcome: SendView) -> Result<
    Seq<char>,
    Seq<char>,
> {
    match route_reply(manager, content, outcome) {
        Ok(routed) => Ok(send_success_text(routed)),
        Err(error) => Err(error.message()),
    }
}

/// The reply to a read command for `path`: the content unchanged, or the text
/// of the read error.
pub open spec fn read_reply(path: Seq<char>, answer: Result<Seq<char>, Seq<char>>) -> Result<
    Seq<char>,
    Seq<char>,
> {
    match answer {
        Ok(content) => Ok(content),
        Err(reason) => Err(read_failure_text(path, reason)),
    }
}

/// The reply to a write command for `path`: the confirmation, or the text of
/// the write error.
pub open spec fn write_reply(path: Seq<char>, answer: Result<(), Seq<char>>) -> Result<
    Seq<char>,
    Seq<char>,
> {
    match answer {
        Ok(_) => Ok(write_success_text(path)),
        Err(reason) => Err(write_failure_text(path, reason)),
    }
}

/// Builds `head + middle + tail`.
fn wrapped(head: &str, middle: &String, tail: &str) -> (text: String)
    ensures
        text@ == head@ + middle@ + tail@,
{
    let mut text = String::from_str(head);
    text.append(middle.as_str());
    text.append(tail);
    text
}

/// The text of a file operation that succeeded: the content that was read, or
/// the confirmation of the write.
fn file_success(done: FileOperationResult) -> (text: String)
    ensures
        text@ == match done@ {
            FileView::Content { content, .. } => content,
            FileView::Written { path } => write_success_text(path),
        },
{
    match done {
        FileOperationResult::Content { content, .. } => content,
        FileOperationResult::Written { path } => wrapped(
            "💜 Successfully wrote to ",
            &path,
            " with LOVE! ✨",
        ),
    }
}

/// Returns the fixed welcome text. Cannot fail and changes nothing.
pub fn mama_bear_greeting() -> (text: String)
    ensures
        text@ == greeting_text(),
{
    String::from_str("💜 Welcome to Mama Bear's Beautiful Family IDE! Ready to code with LOVE! 💜")
}

/// Establishes or replaces the session for `server_url`, given the outcome of
/// the handshake with it. Returns the confirmation or the connection error as
/// text, and the transport of the session that was given up, for the caller to
/// close.
pub fn connect_mcp_server(
    manager: &mut SessionManager,
    server_url: String,
    handshake: HandshakeOutcome,
) -> (reply: (Result<String, String>, Option<TransportHandle>))
    ensures
        final(manager)@ == old(manager)@.connect(server_url@, handshake@),
        reply_view(reply.0) == connect_reply(server_url@, handshake@),
        reply.1 == old(manager)@.held_transport(),
{
    let report = manager.connect(server_url, handshake);
    let text = match report.result {
        Ok(session) => Ok(
            wrapped("🦍 Connected to Papa Bear at ", &session.address, "! Family coordination ACTIVE! 💜"),
        ),
        Err(error) => Err(error.message()),
    };
    (text, report.release)
}

/// Delivers `message` to the connected session, given what became of the
/// transmission, and returns the acknowledgment or the error as text.
pub fn send_family_message(
    manager: &mut SessionManager,
    message: String,
    outcome: SendOutcome,
) -> (reply: Result<String, String>)
    ensures
        final(manager)@ == route_state(old(manager)@, outcome@),
        reply_view(reply) == send_reply(old(manager)@, message@, outcome@),
{
    match crate::router::route(manager, message, outcome) {
        Ok(routed) => Ok(
            wrapped("🐻 Mama Bear received: '", &routed, "' - sending to family with LOVE! 💜"),
        ),
        Err(error) => Err(error.message()),
    }
}

/// Returns the content of the file at `path`, given the filesystem's answer to
/// the read, or the read error as text.
pub fn read_project_file(path: String, answer: Result<String, String>) -> (reply: Result<
    String,
    String,
>)
    ensures
        reply_view(reply) == read_reply(path@, read_answer_view(answer)),
{
    match crate::files::read(path, answer) {
        Ok(done) => Ok(file_success(done)),
        Err(error) => Err(error.message()),
    }
}

/// Confirms that the file at `path` was written, given the filesystem's answer
/// to the write, or returns the write error as text.
pub fn write_project_file(path: String, answer: Result<(), String>) -> (reply: Result<
    String,
    String,
>)
    ensures
        reply_view(reply) == write_reply(path@, write_answer_view(answer)),
{
    match crate::files::write(path, answer) {
        Ok(done) => Ok(file_success(done)),
        Err(error) => Err(error.message()),
    }
}

} // verus!
