use minetest_session::client_connection::ConnectionState;
use minetest_session::command_line::CommandLineInterface;
use minetest_session::endpoint::{EndpointId, NetEvent};
use minetest_session::error::SessionError;
use minetest_session::game::{Datagram, Game, Pacing, Session};
use minetest_session::rate::{
    Rate, DEFAULT_FRAMES_PER_SECOND, DEFAULT_TICKS_PER_SECOND, MAX_RATE, NANOS_PER_SECOND,
};
use minetest_session::server::ShutdownPolicy;

const SECOND: u64 = 1_000_000_000;

fn peer(port: u16) -> EndpointId {
    EndpointId { resource: 1, ip: 1, port }
}

fn message(from: EndpointId, text: &str) -> NetEvent {
    NetEvent::Message(from, text.as_bytes().to_vec())
}

fn server_game(policy: ShutdownPolicy) -> Game {
    let cli = CommandLineInterface { server: true, ..CommandLineInterface::default() };
    Game::new(cli, policy, 1_000)
}

fn client_game() -> Game {
    Game::new(CommandLineInterface::default(), ShutdownPolicy::AcceptAny, 1_000)
}

#[test]
fn rate_is_between_one_and_a_billion() {
    assert!(Rate::new(0).is_none());
    assert_eq!(Rate::new(1).map(|rate| rate.per_second()), Some(1));
    assert_eq!(Rate::new(MAX_RATE).map(|rate| rate.per_second()), Some(1_000_000_000));
    assert!(Rate::new(MAX_RATE + 1).is_none());
    assert!(Rate::new(u32::MAX).is_none());
}

#[test]
fn period_is_the_second_divided_by_the_rate() {
    assert_eq!(NANOS_PER_SECOND, 1_000_000_000);
    assert_eq!(Rate::new(1).unwrap().period_nanos(), 1_000_000_000);
    assert_eq!(Rate::new(20).unwrap().period_nanos(), 50_000_000);
    assert_eq!(Rate::new(60).unwrap().period_nanos(), 16_666_666);
    assert_eq!(Rate::new(144).unwrap().period_nanos(), 6_944_444);
    assert_eq!(Rate::new(MAX_RATE).unwrap().period_nanos(), 1);
    assert_eq!(Rate::new(999_999_999).unwrap().period_nanos(), 1);
}

#[test]
fn default_rates_are_sixty_and_twenty() {
    assert_eq!(DEFAULT_FRAMES_PER_SECOND, 60);
    assert_eq!(DEFAULT_TICKS_PER_SECOND, 20);
    assert_eq!(Rate::default_frames().per_second(), 60);
    assert_eq!(Rate::default_ticks().per_second(), 20);
}

#[test]
fn new_game_has_the_role_the_command_line_asks_for() {
    let server = server_game(ShutdownPolicy::AcceptAny);
    assert!(server.is_server());
    assert!(!server.is_client());
    assert_eq!(server.target_rate().per_second(), 20);
    assert!(!server.should_close());
    assert_eq!(server.get_delta(), 0);
    assert!(server.paces());
    match server.session() {
        Session::Server(session) => {
            assert_eq!(session.policy(), ShutdownPolicy::AcceptAny);
            assert_eq!(session.connection().socket(), "127.0.0.1:30001");
        }
        Session::Client(_) => panic!("a server game runs a server"),
    }

    let client = client_game();
    assert!(client.is_client());
    assert!(!client.is_server());
    assert_eq!(client.target_rate().per_second(), 60);
    match client.session() {
        Session::Client(session) => {
            assert_eq!(session.get_name(), "singleplayer");
            assert_eq!(session.connection().get_socket(), "127.0.0.1:30001");
            assert_eq!(session.connection().state(), ConnectionState::Handshaking);
        }
        Session::Server(_) => panic!("a client game runs a client"),
    }
}

#[test]
fn rates_apply_to_their_own_role() {
    let mut server = server_game(ShutdownPolicy::AcceptAny);
    server.set_frame_rate_target(Rate::new(30).unwrap());
    assert_eq!(server.period_nanos(), 50_000_000);
    server.set_tick_rate_target(Rate::new(10).unwrap());
    assert_eq!(server.period_nanos(), 100_000_000);
    assert_eq!(server.target_rate().per_second(), 10);

    let mut client = client_game();
    client.set_tick_rate_target(Rate::new(10).unwrap());
    assert_eq!(client.period_nanos(), 16_666_666);
    client.set_frame_rate_target(Rate::new(30).unwrap());
    assert_eq!(client.period_nanos(), 33_333_333);
}

#[test]
fn changing_the_rate_keeps_the_clock() {
    let mut game = server_game(ShutdownPolicy::AcceptAny);
    let _ = game.tick(1_000 + SECOND, &[]);
    assert_eq!(game.get_delta(), SECOND);
    game.set_tick_rate_target(Rate::new(40).unwrap());
    assert_eq!(game.get_delta(), SECOND);
    let _ = game.tick(1_000 + SECOND + 25_000_000, &[]);
    assert_eq!(game.get_delta(), 25_000_000);
}

#[test]
fn delta_is_the_time_between_turns() {
    let mut game = server_game(ShutdownPolicy::AcceptAny);
    let _ = game.tick(1_500, &[]);
    assert_eq!(game.get_delta(), 500);
    let _ = game.tick(1_500, &[]);
    assert_eq!(game.get_delta(), 0);
    let _ = game.tick(1_400, &[]);
    assert_eq!(game.get_delta(), 0);
    let _ = game.tick(1_450, &[]);
    assert_eq!(game.get_delta(), 50);
}

#[test]
fn server_paces_whatever_the_pacing() {
    let mut server = server_game(ShutdownPolicy::AcceptAny);
    server.set_pacing(Pacing::Unpaced);
    assert!(server.paces());
    assert!(server.tick(2_000, &[]).pace);
    let mut client = client_game();
    assert!(client.paces());
    client.set_pacing(Pacing::Unpaced);
    assert!(!client.paces());
    assert!(!client.tick(2_000, &[]).pace);
    client.set_pacing(Pacing::Paced);
    assert!(client.tick(3_000, &[]).pace);
}

#[test]
fn shutdown_game_ends_the_loop() {
    let mut game = server_game(ShutdownPolicy::AcceptAny);
    assert!(!game.should_close());
    game.shutdown_game();
    assert!(game.should_close());
    let _ = game.tick(5_000, &[]);
    assert!(game.should_close());
}

#[test]
fn approved_shutdown_ends_the_loop() {
    let mut game = server_game(ShutdownPolicy::AcceptAny);
    let report = game.tick(2_000, &[message(peer(1), "MINETEST_SHUT_DOWN_REQUEST")]);
    assert_eq!(report.shutdown_requesters, vec![peer(1)]);
    assert_eq!(report.failure, None);
    assert!(game.should_close());
}

#[test]
fn refused_shutdown_does_not_end_the_loop() {
    let mut game = server_game(ShutdownPolicy::KnownClientsOnly);
    let report = game.tick(2_000, &[message(peer(1), "MINETEST_SHUT_DOWN_REQUEST")]);
    assert_eq!(report.shutdown_requesters, vec![peer(1)]);
    assert!(!game.should_close());
    match game.session() {
        Session::Server(server) => {
            assert_eq!(server.authorize(peer(1)), Err(SessionError::UnauthorizedShutdown))
        }
        Session::Client(_) => panic!("a server game runs a server"),
    }
}

#[test]
fn lost_connection_ends_the_client_loop() {
    let mut game = client_game();
    let report = game.tick(1_000 + 2 * SECOND, &[]);
    assert_eq!(report.failure, None);
    assert!(!game.should_close());
    let report = game.tick(1_000 + 3 * SECOND, &[]);
    assert_eq!(report.failure, Some(SessionError::HandshakeTimeout));
    assert!(report.shutdown_requesters.is_empty());
    assert!(game.should_close());
    let report = game.tick(1_000 + 4 * SECOND, &[]);
    assert_eq!(report.failure, Some(SessionError::HandshakeTimeout));
}

#[test]
fn malformed_payloads_are_counted() {
    let mut game = server_game(ShutdownPolicy::AcceptAny);
    let report = game.tick(
        2_000,
        &[
            message(peer(1), "hi"),
            message(peer(1), "MINETEST_HAND_SHAKE"),
            NetEvent::Message(peer(2), vec![0xff, 0xff]),
            NetEvent::Disconnected(peer(2)),
            message(peer(3), ""),
        ],
    );
    assert_eq!(report.malformed, 3);
    assert_eq!(game.tick(3_000, &[]).malformed, 0);
    let mut client = client_game();
    assert_eq!(client.tick(2_000, &[message(peer(1), "MINETEST_PING_REQUEST")]).malformed, 0);
    assert_eq!(client.tick(2_000, &[message(peer(1), "minetest_ping_request")]).malformed, 1);
}

#[test]
fn server_datagrams_are_addressed() {
    let mut game = server_game(ShutdownPolicy::AcceptAny);
    let _ = game.tick(
        2_000,
        &[message(peer(1), "MINETEST_HAND_SHAKE"), message(peer(2), "MINETEST_PING_REQUEST")],
    );
    assert_eq!(
        game.take_outbound(),
        vec![
            Datagram { to: Some(peer(1)), payload: b"MINETEST_HAND_SHAKE_CONFIRMED".to_vec() },
            Datagram { to: Some(peer(2)), payload: b"MINETEST_PING_CONFIRMATION".to_vec() },
        ]
    );
    assert_eq!(game.take_outbound(), Vec::<Datagram>::new());
}

#[test]
fn client_pings_through_the_game() {
    let mut game = client_game();
    let _ = game.take_outbound();
    let _ = game.tick(2_000, &[message(peer(1), "MINETEST_HAND_SHAKE_CONFIRMED")]);
    let _ = game.tick(2_000 + 3 * SECOND, &[]);
    assert_eq!(
        game.take_outbound(),
        vec![Datagram { to: None, payload: b"MINETEST_PING_REQUEST".to_vec() }]
    );
    let report = game.tick(2_000 + 6 * SECOND, &[]);
    assert_eq!(report.failure, Some(SessionError::PingTimeout));
    assert!(game.should_close());
}
