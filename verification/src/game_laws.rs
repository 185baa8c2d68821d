//! What holds of every game, turn after turn.

use vstd::prelude::*;
use crate::endpoint::NetEventView;
use crate::game::{GameView, SessionView};
use crate::server::ShutdownPolicy;
use crate::server_connection::shutdown_senders;
use crate::server_laws::accept_any_honours_any_request;
use crate::rate::{is_rate, NANOS_PER_SECOND};

verus! {

/// Once the loop is to end it stays so: no turn takes the flag back.
pub proof fn closing_is_final(game: GameView, now: nat, events: Seq<NetEventView>)
    requires
        game.should_close,
    ensures
        game.tick(now, events).should_close,
{
}

/// A turn leaves the rates, the pacing and the role as they are, so the
/// period and the choice to sleep are the same after it.
pub proof fn turn_keeps_the_pace(game: GameView, now: nat, events: Seq<NetEventView>)
    ensures
        game.tick(now, events).is_server() == game.is_server(),
        game.tick(now, events).target_rate() == game.target_rate(),
        game.tick(now, events).period() == game.period(),
        game.tick(now, events).paces() == game.paces(),
{
}

/// The period of a rate is at least a nanosecond and at most a second, and
/// that many turns of it fit into a second with less than one period to spare.
pub proof fn period_fits_the_second(game: GameView)
    requires
        is_rate(game.target_rate() as int),
    ensures
        1 <= game.period() <= NANOS_PER_SECOND,
        game.target_rate() * game.period() <= NANOS_PER_SECOND,
        NANOS_PER_SECOND < game.target_rate() * (game.period() + 1),
{
    let rate = game.target_rate() as int;
    let second = NANOS_PER_SECOND as int;
    assert(1 <= second / rate <= second && rate * (second / rate) <= second && second < rate * (
    second / rate + 1)) by (nonlinear_arith)
        requires
            1 <= rate <= 1_000_000_000,
            second == 1_000_000_000,
    ;
}

/// The time that a turn measures is the time since the turn before, and
/// nothing where the clock has not moved forward.
pub proof fn turns_measure_the_gap(
    game: GameView,
    first: nat,
    second: nat,
    events: Seq<NetEventView>,
    later: Seq<NetEventView>,
)
    requires
        first <= second,
    ensures
        game.tick(first, events).tick(second, later).delta == second - first,
{
}

/// A client's game is to end after the turn in which its connection fails,
/// and after every turn that follows.
pub proof fn lost_connection_closes_the_client(
    game: GameView,
    now: nat,
    events: Seq<NetEventView>,
)
    requires
        game.session is Client,
        game.tick(now, events).session.failure() is Some,
    ensures
        game.tick(now, events).should_close,
{
}

/// A server's game under `AcceptAny` is to end after a turn that brought a
/// shutdown request, from whomever.
pub proof fn shutdown_request_closes_the_server(
    game: GameView,
    now: nat,
    events: Seq<NetEventView>,
)
    requires
        game.session matches SessionView::Server(server) && server.policy
            == ShutdownPolicy::AcceptAny,
        shutdown_senders(events).len() > 0,
    ensures
        game.tick(now, events).should_close,
{
    match game.session {
        SessionView::Server(server) => {
            accept_any_honours_any_request(server, events);
        },
        SessionView::Client(_) => {},
    }
}

} // verus!
