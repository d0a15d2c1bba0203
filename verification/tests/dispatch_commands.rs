use agent_session_core::dispatch::{
    connect_mcp_server, mama_bear_greeting, read_project_file, send_family_message,
    write_project_file,
};
use agent_session_core::router::SendOutcome;
use agent_session_core::session::{
    HandshakeOutcome, SessionManager, SessionState, TransportHandle,
};

fn connected(url: &str, id: u64) -> SessionManager {
    let mut manager = SessionManager::new();
    let (reply, release) = connect_mcp_server(
        &mut manager,
        url.to_string(),
        HandshakeOutcome::Established(TransportHandle { id }),
    );
    assert!(reply.is_ok());
    assert_eq!(release, None);
    manager
}

#[test]
fn greeting_is_the_fixed_welcome_text() {
    assert_eq!(
        mama_bear_greeting(),
        "💜 Welcome to Mama Bear's Beautiful Family IDE! Ready to code with LOVE! 💜"
    );
}

#[test]
fn greeting_is_the_same_on_every_call() {
    assert_eq!(mama_bear_greeting(), mama_bear_greeting());
}

#[test]
fn connect_confirms_with_the_address() {
    let mut manager = SessionManager::new();
    let (reply, release) = connect_mcp_server(
        &mut manager,
        "https://mofy.ai/sse".to_string(),
        HandshakeOutcome::Established(TransportHandle { id: 7 }),
    );
    assert_eq!(
        reply,
        Ok("🦍 Connected to Papa Bear at https://mofy.ai/sse! Family coordination ACTIVE! 💜"
            .to_string())
    );
    assert_eq!(release, None);
    assert_eq!(manager.state(), SessionState::Connected);
}

#[test]
fn connect_to_unreachable_address_reports_connection_error() {
    let mut manager = SessionManager::new();
    let (reply, release) = connect_mcp_server(
        &mut manager,
        "https://agents.example/sse".to_string(),
        HandshakeOutcome::Failed("host unreachable".to_string()),
    );
    assert_eq!(
        reply,
        Err("💜 Couldn't connect to https://agents.example/sse: host unreachable - but we'll find the family again! 💜"
            .to_string())
    );
    assert_eq!(release, None);
    assert_eq!(manager.state(), SessionState::Disconnected);
    assert_eq!(manager.active_session(), None);
}

#[test]
fn failed_connect_gives_up_the_previous_session() {
    let mut manager = connected("https://a.example/sse", 1);
    let (reply, release) = connect_mcp_server(
        &mut manager,
        "https://b.example/sse".to_string(),
        HandshakeOutcome::Failed("refused".to_string()),
    );
    assert!(reply.is_err());
    assert_eq!(release, Some(TransportHandle { id: 1 }));
    assert_eq!(manager.state(), SessionState::Disconnected);
}

#[test]
fn send_before_connect_reports_no_active_session() {
    let mut manager = SessionManager::new();
    let reply = send_family_message(&mut manager, "hello".to_string(), SendOutcome::Unanswered);
    assert_eq!(
        reply,
        Err("💜 No active session - connect to the family first! 💜".to_string())
    );
    assert_eq!(manager.state(), SessionState::Disconnected);
}

#[test]
fn send_before_connect_ignores_the_outcome() {
    let mut manager = SessionManager::new();
    let reply = send_family_message(
        &mut manager,
        "hello".to_string(),
        SendOutcome::Acknowledged("pong".to_string()),
    );
    assert_eq!(
        reply,
        Err("💜 No active session - connect to the family first! 💜".to_string())
    );
}

#[test]
fn send_without_reply_echoes_the_message() {
    let mut manager = connected("https://mofy.ai/sse", 3);
    let reply = send_family_message(&mut manager, "hello".to_string(), SendOutcome::Unanswered);
    assert_eq!(
        reply,
        Ok("🐻 Mama Bear received: 'hello' - sending to family with LOVE! 💜".to_string())
    );
    assert_eq!(manager.state(), SessionState::Connected);
}

#[test]
fn send_with_reply_shows_the_acknowledgment() {
    let mut manager = connected("https://mofy.ai/sse", 3);
    let reply = send_family_message(
        &mut manager,
        "hello".to_string(),
        SendOutcome::Acknowledged("got it".to_string()),
    );
    assert_eq!(
        reply,
        Ok("🐻 Mama Bear received: 'got it' - sending to family with LOVE! 💜".to_string())
    );
}

#[test]
fn send_on_dropped_transport_reports_connection_error() {
    let mut manager = connected("https://mofy.ai/sse", 3);
    let reply = send_family_message(
        &mut manager,
        "hello".to_string(),
        SendOutcome::Dropped("broken pipe".to_string()),
    );
    assert_eq!(
        reply,
        Err("💜 Couldn't connect to https://mofy.ai/sse: broken pipe - but we'll find the family again! 💜"
            .to_string())
    );
    assert_eq!(manager.state(), SessionState::Disconnected);
    let again = send_family_message(&mut manager, "hello".to_string(), SendOutcome::Unanswered);
    assert_eq!(
        again,
        Err("💜 No active session - connect to the family first! 💜".to_string())
    );
}

#[test]
fn read_returns_the_content_unchanged() {
    let reply = read_project_file("notes.txt".to_string(), Ok("line one\nline two\n".to_string()));
    assert_eq!(reply, Ok("line one\nline two\n".to_string()));
}

#[test]
fn read_of_empty_file_returns_empty_text() {
    assert_eq!(read_project_file("empty".to_string(), Ok(String::new())), Ok(String::new()));
}

#[test]
fn read_failure_names_path_and_reason() {
    let reply = read_project_file(
        "/no/such/file".to_string(),
        Err("No such file or directory (os error 2)".to_string()),
    );
    assert_eq!(
        reply,
        Err("💜 Couldn't read file /no/such/file: No such file or directory (os error 2) - but that's okay, we'll try again! 💜"
            .to_string())
    );
}

#[test]
fn write_confirms_with_the_path() {
    let reply = write_project_file("out/report.md".to_string(), Ok(()));
    assert_eq!(
        reply,
        Ok("💜 Successfully wrote to out/report.md with LOVE! ✨".to_string())
    );
}

#[test]
fn write_failure_names_path_and_reason() {
    let reply = write_project_file(
        "/root/locked".to_string(),
        Err("Permission denied (os error 13)".to_string()),
    );
    assert_eq!(
        reply,
        Err("💜 Couldn't write to /root/locked: Permission denied (os error 13) - but we believe in you! 💜"
            .to_string())
    );
}

#[test]
fn written_content_read_back_is_returned_exactly() {
    let content = "fn main() {}\n// ✨\n".to_string();
    let written = write_project_file("src/main.rs".to_string(), Ok(()));
    assert!(written.is_ok());
    let read = read_project_file("src/main.rs".to_string(), Ok(content.clone()));
    assert_eq!(read, Ok(content));
}
