//! The failures the core can report, and the text the shell shows for each.

use vstd::prelude::*;
use vstd::string::*;

verus! {

/// A failure of one operation of the core.
#[derive(Debug, Clone, PartialEq, Eq)]
pub enum CoreError {
    /// The handshake with `address` failed, or the transport to it broke.
    Connection { address: String, reason: String },
    /// A message was sent while no session was connected.
    NoActiveSession,
    /// The file at `path` could not be read.
    FileRead { path: String, reason: String },
    /// The file at `path` could not be written.
    FileWrite { path: String, reason: String },
}

/// Mathematical model of a [`CoreError`]: the same variants over sequences of
/// characters.
pub enum ErrorView {
    Connection { address: Seq<char>, reason: Seq<char> },
    NoActiveSession,
    FileRead { path: Seq<char>, reason: Seq<char> },
    FileWrite { path: Seq<char>, reason: Seq<char> },
}

impl View for CoreError {
    type V = ErrorView;

    open spec fn view(&self) -> ErrorView {
        match *self {
            CoreError::Connection { address, reason } => ErrorView::Connection {
                address: address@,
                reason: reason@,
            },
            CoreError::NoActiveSession => ErrorView::NoActiveSession,
            CoreError::FileRead { path, reason } => ErrorView::FileRead {
                path: path@,
                reason: reason@,
            },
            CoreError::FileWrite { path, reason } => ErrorView::FileWrite {
                path: path@,
                reason: reason@,
            },
        }
    }
}

/// Text shown when connecting to `address` failed for `reason`.
pub open spec fn connection_failure_text(address: Seq<char>, reason: Seq<char>) -> Seq<char> {
    "💜 Couldn't connect to "@ + address + ": "@ + reason
        + " - but we'll find the family again! 💜"@
}

/// Text shown when a message is sent without a connected session.
pub open spec fn no_active_session_text() -> Seq<char> {
    "💜 No active session - connect to the family first! 💜"@
}

/// Text shown when reading `path` failed for `reason`.
pub open spec fn read_failure_text(path: Seq<char>, reason: Seq<char>) -> Seq<char> {
    "💜 Couldn't read file "@ + path + ": "@ + reason
        + " - but that's okay, we'll try again! 💜"@
}

/// Text shown when writing `path` failed for `reason`.
pub open spec fn write_failure_text(path: Seq<char>, reason: Seq<char>) -> Seq<char> {
    "💜 Couldn't write to "@ + path + ": "@ + reason + " - but we believe in you! 💜"@
}

impl ErrorView {
    /// The human-readable text of the failure.
    pub open spec fn message(self) -> Seq<char> {
        match self {
            ErrorView::Connection { address, reason } => connection_failure_text(address, reason),
            ErrorView::NoActiveSession => no_active_session_text(),
            ErrorView::FileRead { path, reason } => read_failure_text(path, reason),
            ErrorView::FileWrite { path, reason } => write_failure_text(path, reason),
        }
    }
}

/// Builds `head + first + ": " + second + tail`.
fn framed(head: &str, first: &String, second: &String, tail: &str) -> (text: String)
    ensures
        text@ == head@ + first@ + ": "@ + second@ + tail@,
{
    let mut text = String::from_str(head);
    text.append(first.as_str());
    text.append(": ");
    text.append(second.as_str());
    text.append(tail);
    text
}

impl CoreError {
    /// The human-readable text of the failure, as the shell displays it.
    pub fn message(&self) -> (text: String)
        ensures
            text@ == self@.message(),
    {
        match self {
            CoreError::Connection { address, reason } => framed(
                "💜 Couldn't connect to ",
                address,
                reason,
                " - but we'll find the family again! 💜",
            ),
            CoreError::NoActiveSession => String::from_str(
                "💜 No active session - connect to the family first! 💜",
            ),
            CoreError::FileRead { path, reason } => framed(
                "💜 Couldn't read file ",
                path,
                reason,
                " - but that's okay, we'll try again! 💜",
            ),
            CoreError::FileWrite { path, reason } => framed(
                "💜 Couldn't write to ",
                path,
                reason,
                " - but we believe in you! 💜",
            ),
        }
    }
}

} // verus!
