use minetest_session::client::Client;
use minetest_session::client_connection::{
    ClientConnection, ConnectionState, PING_INTERVAL_NANOS, TIMEOUT_NANOS,
};
use minetest_session::codec::Message;
use minetest_session::endpoint::{EndpointId, NetEvent};
use minetest_session::error::SessionError;

const SECOND: u64 = 1_000_000_000;

fn server() -> EndpointId {
    EndpointId { resource: 1, ip: 0x0000_0000_0000_0000_0000_ffff_7f00_0001, port: 30_001 }
}

fn message(text: &str) -> NetEvent {
    NetEvent::Message(server(), text.as_bytes().to_vec())
}

fn handshake_ack() -> NetEvent {
    message("MINETEST_HAND_SHAKE_CONFIRMED")
}

fn ping_ack() -> NetEvent {
    message("MINETEST_PING_CONFIRMATION")
}

fn fresh() -> ClientConnection {
    ClientConnection::new("127.0.0.1".to_string(), 30_001)
}

fn connected() -> ClientConnection {
    let mut connection = fresh();
    assert_eq!(connection.receive(&[handshake_ack()], 0), Ok(()));
    assert_eq!(connection.take_outbound(), vec![Message::Handshake]);
    connection
}

#[test]
fn timeouts_are_three_seconds() {
    assert_eq!(TIMEOUT_NANOS, 3 * SECOND);
    assert_eq!(PING_INTERVAL_NANOS, 3 * SECOND);
}

#[test]
fn new_session_is_handshaking_with_the_handshake_queued() {
    let mut connection = fresh();
    assert_eq!(connection.state(), ConnectionState::Handshaking);
    assert!(!connection.is_connected());
    assert_eq!(connection.handshake_elapsed(), 0);
    assert_eq!(connection.ping_elapsed(), 0);
    assert!(!connection.ping_outstanding());
    assert_eq!(connection.take_outbound(), vec![Message::Handshake]);
    assert_eq!(connection.take_outbound(), Vec::<Message>::new());
}

#[test]
fn handshake_ack_connects() {
    let mut connection = fresh();
    assert_eq!(connection.receive(&[], SECOND), Ok(()));
    assert_eq!(connection.handshake_elapsed(), SECOND);
    assert_eq!(connection.receive(&[handshake_ack()], SECOND), Ok(()));
    assert_eq!(connection.state(), ConnectionState::Connected);
    assert!(connection.is_connected());
    assert_eq!(connection.handshake_elapsed(), 0);
    assert_eq!(connection.ping_elapsed(), SECOND);
    assert!(!connection.ping_outstanding());
}

#[test]
fn handshake_ack_in_the_tick_of_the_timeout_connects() {
    let mut connection = fresh();
    assert_eq!(connection.receive(&[], 2 * SECOND), Ok(()));
    assert_eq!(connection.receive(&[handshake_ack()], 5 * SECOND), Ok(()));
    assert_eq!(connection.state(), ConnectionState::Connected);
}

#[test]
fn handshake_times_out_at_three_seconds() {
    let mut connection = fresh();
    assert_eq!(connection.receive(&[], 2_999_999_999), Ok(()));
    assert_eq!(connection.state(), ConnectionState::Handshaking);
    assert_eq!(connection.handshake_elapsed(), 2_999_999_999);
    assert_eq!(connection.receive(&[], 1), Err(SessionError::HandshakeTimeout));
    assert_eq!(connection.state(), ConnectionState::Disconnected);
    assert!(!connection.is_connected());
}

#[test]
fn handshake_times_out_in_one_long_tick() {
    let mut connection = fresh();
    assert_eq!(connection.receive(&[], u64::MAX), Err(SessionError::HandshakeTimeout));
    assert_eq!(connection.state(), ConnectionState::Disconnected);
}

#[test]
fn handshake_times_out_over_many_ticks() {
    let mut connection = fresh();
    let tick = SECOND / 20;
    let mut ticks = 0;
    loop {
        ticks += 1;
        match connection.receive(&[], tick) {
            Ok(()) => assert!(ticks < 60),
            Err(error) => {
                assert_eq!(error, SessionError::HandshakeTimeout);
                break;
            }
        }
    }
    assert_eq!(ticks, 60);
}

#[test]
fn failed_handshake_stays_failed() {
    let mut connection = fresh();
    assert_eq!(connection.receive(&[], 3 * SECOND), Err(SessionError::HandshakeTimeout));
    assert_eq!(connection.receive(&[handshake_ack()], 0), Err(SessionError::HandshakeTimeout));
    assert_eq!(connection.receive(&[], SECOND), Err(SessionError::HandshakeTimeout));
    assert_eq!(connection.state(), ConnectionState::Disconnected);
}

#[test]
fn other_messages_do_not_answer_the_handshake() {
    let mut connection = fresh();
    let events = vec![
        ping_ack(),
        message("MINETEST_HAND_SHAKE"),
        message("MINETEST_PING_REQUEST"),
        message("MINETEST_SHUT_DOWN_REQUEST"),
        message("hi"),
        NetEvent::Connected(server(), true),
        NetEvent::Accepted(server(), 7),
        NetEvent::Disconnected(server()),
    ];
    assert_eq!(connection.receive(&events, SECOND), Ok(()));
    assert_eq!(connection.state(), ConnectionState::Handshaking);
    assert_eq!(connection.handshake_elapsed(), SECOND);
}

#[test]
fn ping_goes_out_after_the_interval() {
    let mut connection = connected();
    assert_eq!(connection.receive(&[], 2_999_999_999), Ok(()));
    assert!(!connection.ping_outstanding());
    assert_eq!(connection.ping_elapsed(), 2_999_999_999);
    assert_eq!(connection.take_outbound(), Vec::<Message>::new());
    assert_eq!(connection.receive(&[], 1), Ok(()));
    assert!(connection.ping_outstanding());
    assert_eq!(connection.ping_elapsed(), 0);
    assert_eq!(connection.take_outbound(), vec![Message::PingRequest]);
}

#[test]
fn ping_ack_clears_the_ping() {
    let mut connection = connected();
    assert_eq!(connection.receive(&[], 3 * SECOND), Ok(()));
    assert!(connection.ping_outstanding());
    assert_eq!(connection.receive(&[], SECOND), Ok(()));
    assert_eq!(connection.ping_elapsed(), SECOND);
    assert_eq!(connection.receive(&[ping_ack()], SECOND), Ok(()));
    assert!(!connection.ping_outstanding());
    assert_eq!(connection.ping_elapsed(), SECOND);
    assert_eq!(connection.handshake_elapsed(), 0);
    assert_eq!(connection.state(), ConnectionState::Connected);
}

#[test]
fn unanswered_ping_times_out() {
    let mut connection = connected();
    assert_eq!(connection.receive(&[], 3 * SECOND), Ok(()));
    assert_eq!(connection.receive(&[], 2_999_999_999), Ok(()));
    assert_eq!(connection.state(), ConnectionState::Connected);
    assert_eq!(connection.receive(&[], 1), Err(SessionError::PingTimeout));
    assert_eq!(connection.state(), ConnectionState::TimedOut);
    assert!(!connection.is_connected());
}

#[test]
fn timed_out_session_stays_timed_out() {
    let mut connection = connected();
    assert_eq!(connection.receive(&[], 3 * SECOND), Ok(()));
    assert_eq!(connection.receive(&[], 3 * SECOND), Err(SessionError::PingTimeout));
    assert_eq!(connection.receive(&[ping_ack()], 0), Err(SessionError::PingTimeout));
    assert_eq!(connection.receive(&[handshake_ack()], 0), Err(SessionError::PingTimeout));
    assert_eq!(connection.state(), ConnectionState::TimedOut);
    assert_eq!(connection.take_outbound(), vec![Message::PingRequest]);
}

#[test]
fn silent_server_times_out_after_six_seconds_and_not_before() {
    let mut connection = connected();
    let tick = SECOND / 20;
    let mut elapsed = 0;
    loop {
        elapsed += tick;
        match connection.receive(&[], tick) {
            Ok(()) => assert!(elapsed < 6 * SECOND),
            Err(error) => {
                assert_eq!(error, SessionError::PingTimeout);
                break;
            }
        }
    }
    assert_eq!(elapsed, 6 * SECOND);
}

#[test]
fn silent_server_with_uneven_ticks_times_out_no_sooner_than_six_seconds() {
    let mut connection = connected();
    let deltas = [2_900_000_000u64, 2_900_000_000, 2_900_000_000, 2_900_000_000];
    let mut elapsed = 0;
    let mut outcomes = Vec::new();
    for delta in deltas {
        elapsed += delta;
        outcomes.push((elapsed, connection.receive(&[], delta)));
    }
    assert_eq!(
        outcomes,
        vec![
            (2_900_000_000, Ok(())),
            (5_800_000_000, Ok(())),
            (8_700_000_000, Ok(())),
            (11_600_000_000, Err(SessionError::PingTimeout)),
        ]
    );
}

#[test]
fn ping_ack_in_the_tick_of_the_timeout_cancels_it() {
    let mut connection = connected();
    assert_eq!(connection.receive(&[], 3 * SECOND), Ok(()));
    assert_eq!(connection.receive(&[], 2 * SECOND), Ok(()));
    assert!(connection.ping_outstanding());
    assert_eq!(connection.receive(&[ping_ack()], 2 * SECOND), Ok(()));
    assert_eq!(connection.state(), ConnectionState::Connected);
    assert!(!connection.ping_outstanding());
    assert_eq!(connection.ping_elapsed(), 2 * SECOND);
}

#[test]
fn ping_ack_in_a_very_long_tick_cancels_and_pings_again() {
    let mut connection = connected();
    assert_eq!(connection.receive(&[], 3 * SECOND), Ok(()));
    assert_eq!(connection.take_outbound(), vec![Message::PingRequest]);
    assert_eq!(connection.receive(&[ping_ack()], 10 * SECOND), Ok(()));
    assert_eq!(connection.state(), ConnectionState::Connected);
    assert!(connection.ping_outstanding());
    assert_eq!(connection.ping_elapsed(), 0);
    assert_eq!(connection.take_outbound(), vec![Message::PingRequest]);
}

#[test]
fn ping_ack_without_a_ping_is_ignored() {
    let mut connection = connected();
    assert_eq!(connection.receive(&[], SECOND), Ok(()));
    assert_eq!(connection.receive(&[ping_ack()], SECOND), Ok(()));
    assert_eq!(connection.ping_elapsed(), 2 * SECOND);
    assert!(!connection.ping_outstanding());
}

#[test]
fn events_are_folded_in_before_the_clock_moves() {
    let mut connection = fresh();
    let events = vec![message("junk"), handshake_ack(), ping_ack()];
    assert_eq!(connection.receive(&events, 3 * SECOND), Ok(()));
    assert_eq!(connection.state(), ConnectionState::Connected);
    assert!(connection.ping_outstanding());
    assert_eq!(connection.take_outbound(), vec![Message::Handshake, Message::PingRequest]);
}

#[test]
fn malformed_payload_is_reported_and_changes_nothing() {
    let mut connection = connected();
    assert_eq!(connection.receive(&[], SECOND), Ok(()));
    let before = (
        connection.state(),
        connection.handshake_elapsed(),
        connection.ping_elapsed(),
        connection.ping_outstanding(),
    );
    assert_eq!(
        connection.event_reaction(NetEvent::Message(server(), vec![0xff, 0xfe])),
        Err(SessionError::MalformedMessage)
    );
    assert_eq!(connection.event_reaction(message("hi")), Err(SessionError::MalformedMessage));
    let after = (
        connection.state(),
        connection.handshake_elapsed(),
        connection.ping_elapsed(),
        connection.ping_outstanding(),
    );
    assert_eq!(before, after);
    assert_eq!(connection.take_outbound(), Vec::<Message>::new());
}

#[test]
fn event_reaction_takes_known_messages_in_silence() {
    let mut connection = fresh();
    assert_eq!(connection.event_reaction(message("MINETEST_PING_REQUEST")), Ok(()));
    assert_eq!(connection.event_reaction(NetEvent::Disconnected(server())), Ok(()));
    assert_eq!(connection.state(), ConnectionState::Handshaking);
    assert_eq!(connection.event_reaction(handshake_ack()), Ok(()));
    assert_eq!(connection.state(), ConnectionState::Connected);
}

#[test]
fn invalid_utf8_in_a_tick_leaves_the_session_as_it_was() {
    let mut plain = connected();
    let mut fed = connected();
    assert_eq!(plain.receive(&[], SECOND), Ok(()));
    assert_eq!(fed.receive(&[NetEvent::Message(server(), vec![0xc3, 0x28])], SECOND), Ok(()));
    assert_eq!(plain.state(), fed.state());
    assert_eq!(plain.ping_elapsed(), fed.ping_elapsed());
    assert_eq!(plain.ping_outstanding(), fed.ping_outstanding());
    assert_eq!(plain.handshake_elapsed(), fed.handshake_elapsed());
}

#[test]
fn answer_from_any_sender_counts() {
    let stranger = EndpointId { resource: 9, ip: 1, port: 2 };
    let mut connection = fresh();
    let ack = NetEvent::Message(stranger, b"MINETEST_HAND_SHAKE_CONFIRMED".to_vec());
    assert_eq!(connection.receive(&[ack], 0), Ok(()));
    assert!(connection.is_connected());
}

#[test]
fn socket_name_joins_address_and_port() {
    let mut connection = fresh();
    assert_eq!(connection.get_socket(), "127.0.0.1:30001");
    connection.set_address("example.org".to_string());
    connection.set_port(80);
    assert_eq!(connection.get_socket(), "example.org:80");
    connection.set_port(-5);
    assert_eq!(connection.get_socket(), "example.org:-5");
    assert_eq!(connection.state(), ConnectionState::Handshaking);
}

#[test]
fn port_outside_the_range_is_transport_unavailable() {
    let mut connection = fresh();
    assert_eq!(connection.socket_port(), Ok(30_001));
    connection.set_port(0);
    assert_eq!(connection.socket_port(), Ok(0));
    connection.set_port(65_535);
    assert_eq!(connection.socket_port(), Ok(65_535));
    connection.set_port(65_536);
    assert_eq!(connection.socket_port(), Err(SessionError::TransportUnavailable));
    connection.set_port(-1);
    assert_eq!(connection.socket_port(), Err(SessionError::TransportUnavailable));
}

#[test]
fn client_quits_when_the_connection_fails() {
    let mut client = Client::new("singleplayer".to_string(), "127.0.0.1".to_string(), 30_001);
    assert_eq!(client.get_name(), "singleplayer");
    assert!(!client.should_quit());
    assert_eq!(client.on_tick(&[], SECOND), Ok(()));
    assert!(!client.should_quit());
    assert_eq!(client.on_tick(&[], 2 * SECOND), Err(SessionError::HandshakeTimeout));
    assert!(client.should_quit());
    assert_eq!(client.connection().state(), ConnectionState::Disconnected);
}

#[test]
fn client_polls_while_still_handshaking() {
    let mut client = Client::new("singleplayer".to_string(), "127.0.0.1".to_string(), 30_001);
    assert_eq!(client.take_outbound(), vec![Message::Handshake]);
    assert_eq!(client.on_tick(&[handshake_ack()], SECOND), Ok(()));
    assert!(client.connection().is_connected());
    assert!(!client.should_quit());
}

#[test]
fn client_name_and_quit() {
    let mut client = Client::new("a".to_string(), "127.0.0.1".to_string(), 30_001);
    client.change_name("b".to_string());
    assert_eq!(client.get_name(), "b");
    client.quit();
    assert!(client.should_quit());
    assert_eq!(client.on_tick(&[handshake_ack()], 0), Ok(()));
    assert!(client.should_quit());
}
