//! Command dispatch and agent-session core of a desktop shell backend.
//!
//! The shell issues five named commands. Each is routed to the file access
//! gateway or, through the message router, to the agent session manager, and
//! every outcome comes back as a success string or an error string.
//!
//! The core performs no I/O of its own. Its caller opens transports, sends
//! bytes and touches the filesystem, and reports what happened as plain values;
//! the core decides the next state and the reply.

pub mod error;
pub mod session;
pub mod router;
pub mod files;
pub mod dispatch;
pub mod laws;
