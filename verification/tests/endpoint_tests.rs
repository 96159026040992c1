use se_tls::endpoint::{
    failure_error, first_line, has_line_terminator, EndpointStateMachine, Event, Phase, Role,
    ACK_READ_LEN,
};
use se_tls::errors::TlsError;

#[test]
fn client_walks_the_happy_path() {
    let mut m = EndpointStateMachine::new(Role::Client);
    assert_eq!(m.phase(), Phase::Idle);
    assert_eq!(m.start(), Phase::Connecting);
    assert_eq!(m.on_event(Event::TransportReady), Phase::Handshaking);
    assert_eq!(m.on_event(Event::HandshakeDone), Phase::Established);
    assert_eq!(m.on_event(Event::ExchangeDone), Phase::Closed);
}

#[test]
fn server_walks_the_happy_path() {
    let mut m = EndpointStateMachine::new(Role::Server);
    assert_eq!(m.start(), Phase::Listening);
    assert_eq!(m.on_event(Event::TransportReady), Phase::Handshaking);
    assert_eq!(m.on_event(Event::HandshakeDone), Phase::Established);
    assert_eq!(m.on_event(Event::ExchangeDone), Phase::Closed);
}

#[test]
fn rejected_handshake_fails_and_stays_failed() {
    let mut m = EndpointStateMachine::new(Role::Client);
    m.start();
    m.on_event(Event::TransportReady);
    assert_eq!(m.on_event(Event::HandshakeRejected), Phase::Failed);
    // Terminal: no event moves a failed endpoint.
    assert_eq!(m.on_event(Event::TransportReady), Phase::Failed);
    assert_eq!(m.on_event(Event::HandshakeDone), Phase::Failed);
}

#[test]
fn closed_endpoint_never_moves() {
    let mut m = EndpointStateMachine::new(Role::Server);
    m.start();
    m.on_event(Event::TransportReady);
    m.on_event(Event::HandshakeDone);
    m.on_event(Event::ExchangeDone);
    assert_eq!(m.phase(), Phase::Closed);
    assert_eq!(m.on_event(Event::TransportReady), Phase::Closed);
    assert_eq!(m.start(), Phase::Closed);
}

#[test]
fn out_of_order_events_fail_the_endpoint() {
    let mut m = EndpointStateMachine::new(Role::Client);
    m.start();
    assert_eq!(m.on_event(Event::HandshakeDone), Phase::Failed);
}

#[test]
fn failure_errors_name_the_failing_step() {
    assert_eq!(failure_error(Role::Server, Phase::Listening), TlsError::BindError);
    assert_eq!(failure_error(Role::Client, Phase::Connecting), TlsError::ConnectError);
    assert_eq!(
        failure_error(Role::Client, Phase::Handshaking),
        TlsError::HandshakeFailed
    );
    assert_eq!(
        failure_error(Role::Server, Phase::Handshaking),
        TlsError::HandshakeFailed
    );
    assert_eq!(
        TlsError::HandshakeFailed.reason(),
        "handshake failed: the TLS handshake did not complete"
    );
}

#[test]
fn first_line_stops_at_the_terminator() {
    assert_eq!(first_line(b"hello\nworld\n"), b"hello\n".to_vec());
    assert_eq!(first_line(b"hello\n"), b"hello\n".to_vec());
    assert_eq!(first_line(b"\nrest"), b"\n".to_vec());
}

#[test]
fn first_line_returns_partial_input_without_terminator() {
    assert_eq!(first_line(b"no terminator"), b"no terminator".to_vec());
    assert_eq!(first_line(b""), Vec::<u8>::new());
}

#[test]
fn line_terminator_detection() {
    assert!(has_line_terminator(b"hello\n"));
    assert!(has_line_terminator(b"a\nb"));
    assert!(!has_line_terminator(b"hello"));
    assert!(!has_line_terminator(b""));
}

#[test]
fn ack_read_is_bounded() {
    assert_eq!(ACK_READ_LEN, 1024);
}
