use sockecho::config::ServiceConfig;
use sockecho::stream::{
    classify_recv, RecvClass, SendDirective, SendOutcome, SendProgress, StreamSession,
};

#[test]
fn zero_byte_receive_is_clean_closure() {
    assert!(classify_recv(Some(0), 0, false) == RecvClass::PeerClosed);
    assert!(classify_recv(Some(0), 104, true) == RecvClass::PeerClosed);
}

#[test]
fn positive_receive_is_a_message() {
    assert!(classify_recv(Some(5), 0, false) == RecvClass::Message(5));
    assert!(classify_recv(Some(128), 0, false) == RecvClass::Message(128));
}

#[test]
fn would_block_is_a_timeout_not_an_error() {
    assert!(classify_recv(None, 11, true) == RecvClass::TimedOut);
}

#[test]
fn hard_receive_error_keeps_its_code() {
    assert!(classify_recv(None, 104, false) == RecvClass::Failed(104));
}

#[test]
fn send_loop_accumulates_partial_writes() {
    let mut p = SendProgress::begin(10);
    assert_eq!(p.offset(), 0);
    assert!(!p.is_complete());
    assert!(p.advance(SendOutcome::Wrote(4)) == SendDirective::Continue);
    assert_eq!(p.offset(), 4);
    assert!(p.advance(SendOutcome::Wrote(6)) == SendDirective::Complete);
    assert!(p.is_complete());
}

#[test]
fn zero_length_write_is_peer_closure_during_send() {
    let mut p = SendProgress::begin(5);
    assert!(p.advance(SendOutcome::Wrote(0)) == SendDirective::ClosedDuringSend);
    assert_eq!(p.offset(), 0);
}

#[test]
fn send_error_aborts_with_its_code() {
    let mut p = SendProgress::begin(5);
    assert!(p.advance(SendOutcome::Failed(32)) == SendDirective::Abort(32));
}

#[test]
fn session_answers_each_message_in_turn() {
    let mut s = StreamSession::accept(false);
    let first = s.on_message(&b"tell me a name".to_vec());
    assert!(first.starts_with("Generated user: "));
    let second = s.on_message(&b"any company".to_vec());
    assert!(second.starts_with("Random company: "));
    s.on_peer_closed();
}

#[test]
fn session_replies_to_undecodable_bytes() {
    let mut s = StreamSession::accept(false);
    let reply = s.on_message(&vec![0xffu8, 0x20, 0xfe]);
    assert!(!reply.is_empty());
    assert!(reply.starts_with("Server response for '"));
}

#[test]
fn timeout_policy_is_explicit() {
    let mut waiting = StreamSession::accept(false);
    assert!(!waiting.on_timeout());
    let mut closing = StreamSession::accept(true);
    assert!(closing.on_timeout());
}

#[test]
fn stream_scenario_hello_client() {
    // A fresh stream server with a 32-byte buffer and a 2-second
    // receive timeout; the client's greeting is 22 bytes.
    let config = ServiceConfig {
        buffer_size: 32,
        timeout_seconds: 2,
        backlog: 128,
        address_path: String::from("/tmp/socket_file"),
        single_connection: false,
        close_on_idle: false,
    };
    let message = b"Hello from client!!!!!".to_vec();
    assert_eq!(message.len(), 22);
    assert!(message.len() <= config.buffer_size);

    // The server observes the 22-byte receipt and answers.
    assert!(classify_recv(Some(22), 0, false) == RecvClass::Message(22));
    let mut s = StreamSession::accept(false);
    let reply = s.on_message(&message);
    assert!(!reply.is_empty());

    // If nothing arrives within the window, the client sees a
    // timeout, distinct from closure and from a hard error.
    assert!(classify_recv(None, 11, true) == RecvClass::TimedOut);
    assert!(classify_recv(Some(0), 0, false) == RecvClass::PeerClosed);
}

#[test]
fn stream_defaults_match_documentation() {
    let c = ServiceConfig::stream_default();
    assert_eq!(c.buffer_size, 128);
    assert_eq!(c.timeout_seconds, 2);
    assert_eq!(c.backlog, 128);
    assert_eq!(c.address_path, "/tmp/socket_file");
    assert!(!c.single_connection);
    assert!(!c.close_on_idle);
}

#[test]
fn datagram_defaults_match_documentation() {
    let c = ServiceConfig::datagram_default();
    assert_eq!(c.buffer_size, 4096);
    assert_eq!(c.timeout_seconds, 0);
    assert_eq!(c.address_path, "/tmp/udp_server");
}
