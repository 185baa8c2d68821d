use minetest_session::client_connection::{ClientConnection, ConnectionState};
use minetest_session::codec::{decode, encode, Message};
use minetest_session::command_line::CommandLineInterface;
use minetest_session::endpoint::{EndpointId, NetEvent};
use minetest_session::game::{Datagram, Game, Session};
use minetest_session::server::{Server, ShutdownPolicy};
use minetest_session::server_connection::ServerConnection;

const SECOND: u64 = 1_000_000_000;

fn client_endpoint(port: u16) -> EndpointId {
    EndpointId { resource: 3, ip: 0x0000_0000_0000_0000_0000_ffff_7f00_0001, port }
}

fn server_endpoint() -> EndpointId {
    EndpointId { resource: 5, ip: 0x0000_0000_0000_0000_0000_ffff_7f00_0001, port: 30_001 }
}

fn server_cli() -> CommandLineInterface {
    CommandLineInterface { server: true, ..CommandLineInterface::default() }
}

#[test]
fn client_handshake_round_trip() {
    let mut client = ClientConnection::new("127.0.0.1".to_string(), 30_001);
    let mut server = ServerConnection::new("127.0.0.1".to_string(), 30_001);

    let sent: Vec<Vec<u8>> = client.take_outbound().iter().map(encode).collect();
    assert_eq!(sent, vec![b"MINETEST_HAND_SHAKE".to_vec()]);

    let arrived: Vec<NetEvent> =
        sent.into_iter().map(|payload| NetEvent::Message(client_endpoint(40_000), payload)).collect();
    server.receive(&arrived);
    let replies = server.take_outbound();
    assert_eq!(replies.len(), 1);
    assert_eq!(replies[0].to, client_endpoint(40_000));
    assert_eq!(encode(&replies[0].message), b"MINETEST_HAND_SHAKE_CONFIRMED".to_vec());

    let answered: Vec<NetEvent> = replies
        .iter()
        .map(|reply| NetEvent::Message(server_endpoint(), encode(&reply.message)))
        .collect();
    assert_eq!(client.state(), ConnectionState::Handshaking);
    assert_eq!(client.receive(&answered, SECOND / 60), Ok(()));
    assert_eq!(client.state(), ConnectionState::Connected);
}

#[test]
fn two_shutdown_requests_in_one_server_tick() {
    let mut server = Server::new("127.0.0.1".to_string(), 30_001, ShutdownPolicy::AcceptAny);
    let events = vec![
        NetEvent::Message(client_endpoint(40_000), b"MINETEST_SHUT_DOWN_REQUEST".to_vec()),
        NetEvent::Message(client_endpoint(40_001), b"MINETEST_SHUT_DOWN_REQUEST".to_vec()),
    ];
    let asked = server.on_tick(&events, SECOND / 20);
    assert_eq!(asked.len(), 2);
    assert_eq!(asked, vec![client_endpoint(40_000), client_endpoint(40_001)]);
    assert_ne!(asked[0], asked[1]);
    assert!(server.connection().shutdown_requests().is_empty());
    assert!(server.shutdown_is_approved());
}

#[test]
fn server_at_twenty_ticks_turns_twenty_times_a_second() {
    let mut game = Game::new(server_cli(), ShutdownPolicy::AcceptAny, 0);
    assert_eq!(game.period_nanos(), 50_000_000);
    let mut now: u64 = 0;
    let mut turns = 0;
    while now < SECOND {
        let report = game.tick(now, &[]);
        turns += 1;
        assert!(report.pace);
        now += game.period_nanos();
    }
    assert!((19..=21).contains(&turns));
    assert_eq!(turns, 20);
    assert_eq!(game.get_delta(), 50_000_000);
    assert!(!game.should_close());
}

#[test]
fn client_at_sixty_frames_turns_sixty_times_a_second() {
    let mut game = Game::new(CommandLineInterface::default(), ShutdownPolicy::AcceptAny, 0);
    assert_eq!(game.period_nanos(), 16_666_666);
    let mut now: u64 = 0;
    let mut turns = 0;
    while now < SECOND {
        let _ = game.tick(now, &[]);
        turns += 1;
        now += game.period_nanos();
    }
    assert!((59..=61).contains(&turns));
}

#[test]
fn whole_session_over_two_games() {
    let mut client = Game::new(CommandLineInterface::default(), ShutdownPolicy::AcceptAny, 0);
    let mut server = Game::new(server_cli(), ShutdownPolicy::KnownClientsOnly, 0);
    let at_server = client_endpoint(40_000);

    let mut to_server: Vec<NetEvent> = Vec::new();
    let mut to_client: Vec<NetEvent> = Vec::new();
    let mut now: u64 = 0;
    for _ in 0..100 {
        now += SECOND / 10;
        let report = client.tick(now, &to_client);
        assert_eq!(report.failure, None);
        to_client.clear();
        for datagram in client.take_outbound() {
            assert_eq!(datagram.to, None);
            to_server.push(NetEvent::Message(at_server, datagram.payload));
        }
        let report = server.tick(now, &to_server);
        assert!(report.shutdown_requesters.is_empty());
        to_server.clear();
        for datagram in server.take_outbound() {
            assert_eq!(datagram.to, Some(at_server));
            to_client.push(NetEvent::Message(server_endpoint(), datagram.payload));
        }
    }
    assert!(!client.should_close());
    assert!(!server.should_close());
    match client.session() {
        Session::Client(session) => assert!(session.connection().is_connected()),
        Session::Server(_) => panic!("a client game runs a client"),
    }

    to_server.push(NetEvent::Message(at_server, encode(&Message::ShutdownRequest)));
    let report = server.tick(now + 1, &to_server);
    assert_eq!(report.shutdown_requesters, vec![at_server]);
    assert!(server.should_close());
}

#[test]
fn datagrams_carry_the_tokens() {
    let mut client = Game::new(CommandLineInterface::default(), ShutdownPolicy::AcceptAny, 0);
    let sent = client.take_outbound();
    assert_eq!(sent, vec![Datagram { to: None, payload: b"MINETEST_HAND_SHAKE".to_vec() }]);
    assert_eq!(decode(&sent[0].payload), Message::Handshake);
    assert_eq!(client.take_outbound(), Vec::<Datagram>::new());
}
