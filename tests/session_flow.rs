use localchat::config::{socket_path_from, tcp_port_from};
use localchat::discovery::on_resolved;
use localchat::dispatch::{peer_address, plan_send, prepare_send, send_outcome};
use localchat::session::{accept_inbound, frame_line, invalid_command, record_line};
use localchat::{
    DaemonState, DaemonToGuiMessage, GuiToDaemonCommand, IpAddress, IpcPeer, Message, ResolvedService, SendFailure,
    SessionStep, Timestamp,
};

const T: Timestamp = Timestamp { seconds: 1_700_000_000, nanos: 5 };

fn known_peer(d: &mut DaemonState, id: &str, name: &str, ip: (u8, u8, u8, u8)) {
    let ev = ResolvedService {
        fullname: format!("{}_x._localchat._tcp.local.", name),
        full_id: Some(id.to_string()),
        username: Some(name.to_string()),
        addresses: vec![IpAddress::V4(ip.0, ip.1, ip.2, ip.3)],
        port: 12345,
    };
    on_resolved(&mut d.registry, "Me_x._localchat._tcp.local.", &ev);
}

fn error_text(step: SessionStep) -> String {
    match step {
        SessionStep::Reply(DaemonToGuiMessage::Error(e)) => e,
        other => panic!("expected an error reply, got {:?}", other),
    }
}

fn peer_ids(step: SessionStep) -> Vec<String> {
    match step {
        SessionStep::Reply(DaemonToGuiMessage::PeerList(ps)) => ps.into_iter().map(|p| p.id).collect(),
        other => panic!("expected a peer list, got {:?}", other),
    }
}

fn send_cmd(to: &str, content: &str) -> GuiToDaemonCommand {
    GuiToDaemonCommand::SendMessage { recipient_id: to.to_string(), content: content.to_string() }
}

#[test]
fn set_username_registers_once() {
    let mut d = DaemonState::new();
    let cmd = GuiToDaemonCommand::SetUsername { username: "Alice".to_string() };
    match d.handle_command_with(cmd, "AbCd1234", "m", T) {
        SessionStep::Register { identity, reply } => {
            assert_eq!(identity.m_dns_instance_name, "Alice_AbCd1234");
            match reply {
                DaemonToGuiMessage::IdentityInfo { user_id } => assert_eq!(user_id, "Alice - AbCd1234"),
                other => panic!("unexpected {:?}", other),
            }
        }
        other => panic!("unexpected {:?}", other),
    }
    let again = GuiToDaemonCommand::SetUsername { username: "Bob".to_string() };
    assert_eq!(error_text(d.handle_command_with(again, "ZZZZZZZZ", "m", T)), "Username already set.");
    assert_eq!(d.identity.current().unwrap().full_message_id, "Alice - AbCd1234");
}

#[test]
fn set_username_with_random_suffix() {
    let mut d = DaemonState::new();
    let cmd = GuiToDaemonCommand::SetUsername { username: "Alice".to_string() };
    match d.handle_command(cmd) {
        SessionStep::Register { identity, .. } => {
            let suffix = identity.full_message_id.strip_prefix("Alice - ").unwrap().to_string();
            assert_eq!(suffix.len(), 8);
            assert!(suffix.chars().all(|c| c.is_ascii_alphanumeric()));
        }
        other => panic!("unexpected {:?}", other),
    }
}

#[test]
fn get_peers_twice_gives_identical_lists() {
    let mut d = DaemonState::new();
    known_peer(&mut d, "Bob - 1", "Bob", (10, 0, 0, 2));
    known_peer(&mut d, "Eve - 2", "Eve", (10, 0, 0, 3));
    let first = peer_ids(d.handle_command_with(GuiToDaemonCommand::GetPeers, "s", "m", T));
    let second = peer_ids(d.handle_command_with(GuiToDaemonCommand::GetPeers, "s", "m", T));
    assert_eq!(first.len(), 2);
    assert_eq!(first, second);
}

#[test]
fn clear_then_get_peers_is_empty() {
    let mut d = DaemonState::new();
    known_peer(&mut d, "Bob - 1", "Bob", (10, 0, 0, 2));
    assert!(matches!(d.handle_command_with(GuiToDaemonCommand::ClearDaemonPeerCache, "s", "m", T), SessionStep::Silent));
    assert!(peer_ids(d.handle_command_with(GuiToDaemonCommand::GetPeers, "s", "m", T)).is_empty());
}

#[test]
fn send_to_unknown_recipient_names_it() {
    let mut d = DaemonState::new();
    d.identity.set_identity("Alice", "AbCd1234").unwrap();
    let e = error_text(d.handle_command_with(send_cmd("Ghost - 0", "hi"), "s", "m", T));
    assert_eq!(e, "Recipient 'Ghost - 0' not found.");
    assert!(e.contains("Ghost - 0"));
}

#[test]
fn send_without_identity_is_refused() {
    let mut d = DaemonState::new();
    known_peer(&mut d, "Bob - 1", "Bob", (10, 0, 0, 2));
    let e = error_text(d.handle_command_with(send_cmd("Bob - 1", "hi"), "s", "m", T));
    assert_eq!(e, "Cannot send message: User identity not set. Please set username first.");
}

#[test]
fn history_is_not_implemented() {
    let mut d = DaemonState::new();
    let cmd = GuiToDaemonCommand::RequestHistory { peer_id: "x".to_string(), since_timestamp: None };
    assert_eq!(error_text(d.handle_command_with(cmd, "s", "m", T)), "History feature not yet implemented");
}

#[test]
fn round_trip_hi() {
    let mut a = DaemonState::new();
    a.identity.set_identity("Alice", "AbCd1234").unwrap();
    known_peer(&mut a, "Bob - 1", "Bob", (10, 0, 0, 2));
    let plan = match a.handle_command_with(send_cmd("Bob - 1", "hi"), "s", "msg-1", T) {
        SessionStep::Deliver(p) => p,
        other => panic!("unexpected {:?}", other),
    };
    assert_eq!(plan.address, "10.0.0.2:12345");
    assert_eq!(plan.message.id, "msg-1");
    assert_eq!(plan.message.timestamp, T);
    let wire: Message = plan.message.clone();
    match accept_inbound(wire) {
        DaemonToGuiMessage::NewMessage(m) => {
            assert_eq!(m.content, "hi");
            assert_eq!(m.sender, "Alice - AbCd1234");
            assert_eq!(m.recipient, "Bob - 1");
            assert!(!m.is_self);
            assert_eq!(m.id, plan.message.id);
        }
        other => panic!("unexpected {:?}", other),
    }
}

#[test]
fn inbound_message_is_marked_not_self() {
    let m = Message {
        id: "1".to_string(),
        sender: "Bob - 1".to_string(),
        recipient: "Alice - 2".to_string(),
        content: "yo".to_string(),
        timestamp: T,
        is_self: true,
    };
    match accept_inbound(m) {
        DaemonToGuiMessage::NewMessage(m) => {
            assert!(!m.is_self);
            assert_eq!(m.content, "yo");
        }
        other => panic!("unexpected {:?}", other),
    }
}

#[test]
fn prepare_send_draws_id_and_time() {
    let mut d = DaemonState::new();
    d.identity.set_identity("Alice", "AbCd1234").unwrap();
    known_peer(&mut d, "Bob - 1", "Bob", (192, 168, 0, 10));
    let p = prepare_send(&d.identity, &d.registry, "Bob - 1", "hello").unwrap();
    assert_eq!(p.message.id.len(), 36);
    assert!(p.message.timestamp.seconds > 0);
    assert_eq!(p.message.content, "hello");
    let q = plan_send(&d.identity, &d.registry, "Bob - 1", "hello", "fixed", T).unwrap();
    assert_eq!(q.message.id, "fixed");
}

#[test]
fn peer_address_joins_ip_and_port() {
    let p = IpcPeer { id: "x".to_string(), username: "x".to_string(), ip: "10.0.0.1".to_string(), port: 7 };
    assert_eq!(peer_address(&p), "10.0.0.1:7");
}

#[test]
fn send_outcomes_name_stage_and_peer() {
    let text = |o: Result<(), SendFailure>| match send_outcome("Bob", &o) {
        DaemonToGuiMessage::Error(e) => format!("E:{}", e),
        DaemonToGuiMessage::Success(s) => format!("S:{}", s),
        other => panic!("unexpected {:?}", other),
    };
    assert_eq!(text(Ok(())), "S:Message successfully sent to Bob");
    assert_eq!(text(Err(SendFailure::Connect("refused".to_string()))), "E:Could not connect to Bob: refused");
    assert_eq!(text(Err(SendFailure::Encode("bad".to_string()))), "E:Failed to prepare message for Bob: bad");
    assert_eq!(text(Err(SendFailure::Write("pipe".to_string()))), "E:Failed to send message to Bob: pipe");
    assert_eq!(text(Err(SendFailure::Flush("reset".to_string()))), "E:Network error sending to Bob: reset");
}

#[test]
fn invalid_command_reply() {
    match invalid_command("expected value at line 1 column 1") {
        DaemonToGuiMessage::Error(e) => assert_eq!(e, "Invalid command format: expected value at line 1 column 1"),
        other => panic!("unexpected {:?}", other),
    }
}

#[test]
fn line_framing() {
    assert_eq!(frame_line("  {\"GetPeers\":null} \r\n"), Some("{\"GetPeers\":null}".to_string()));
    assert_eq!(frame_line(" \t\n"), None);
    assert_eq!(frame_line(""), None);
    assert_eq!(record_line("{}"), "{}\n");
}

#[test]
fn port_and_socket_overrides() {
    assert_eq!(tcp_port_from(None), 12345);
    assert_eq!(tcp_port_from(Some("8080")), 8080);
    assert_eq!(tcp_port_from(Some("abc")), 12345);
    assert_eq!(tcp_port_from(Some("70000")), 12345);
    assert_eq!(tcp_port_from(Some("")), 12345);
    assert_eq!(socket_path_from(None), "/tmp/localchat_daemon.sock");
    assert_eq!(socket_path_from(Some("/run/x.sock".to_string())), "/run/x.sock");
}
