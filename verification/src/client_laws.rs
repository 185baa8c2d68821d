//! What holds of every client session, whatever arrives and however the
//! ticks fall.

use vstd::prelude::*;
use vstd::utf8::*;
use crate::endpoint::{carries, is_malformed};
use crate::client_connection::{
    silent_of, ticks_silent_of, total_delta, ClientConnectionView,
    ConnectionState, Tick, PING_INTERVAL_NANOS, TIMEOUT_NANOS,
};
use crate::codec::{invalid_utf8_decodes_to_unknown, MessageView};
use crate::endpoint::{EndpointId, NetEventView};
use crate::error::SessionError;

verus! {

/// Whether some event of `events` carries `message`.
pub open spec fn hears(events: Seq<NetEventView>, message: MessageView) -> bool {
    exists|i: int| 0 <= i < events.len() && carries(#[trigger] events[i], message)
}

/// A payload that is no token leaves the session exactly as it was.
pub proof fn malformed_event_changes_nothing(session: ClientConnectionView, event: NetEventView)
    requires
        is_malformed(event),
    ensures
        session.react(event) == session,
{
}

/// A payload that is not valid UTF-8 is malformed, and so leaves the session
/// exactly as it was.
pub proof fn invalid_utf8_changes_nothing(
    session: ClientConnectionView,
    peer: EndpointId,
    payload: Seq<u8>,
)
    requires
        !valid_utf8(payload),
    ensures
        is_malformed(NetEventView::Message(peer, payload)),
        session.react(NetEventView::Message(peer, payload)) == session,
{
    invalid_utf8_decodes_to_unknown(payload);
}

/// A session that has failed stays as it is, whatever arrives.
pub proof fn failed_session_stays(session: ClientConnectionView, ticks: Seq<Tick>)
    requires
        session.failure() is Some,
    ensures
        session.run(ticks) == session,
    decreases ticks.len(),
{
    if ticks.len() > 0 {
        failed_session_stays(session, ticks.drop_last());
        failed_session_ignores(session, ticks.last().events);
    }
}

proof fn failed_session_ignores(session: ClientConnectionView, events: Seq<NetEventView>)
    requires
        session.failure() is Some,
    ensures
        session.react_all(events) == session,
    decreases events.len(),
{
    if events.len() > 0 {
        failed_session_ignores(session, events.drop_last());
    }
}

proof fn handshaking_fold(session: ClientConnectionView, events: Seq<NetEventView>)
    requires
        session.state == ConnectionState::Handshaking,
    ensures
        !hears(events, MessageView::HandshakeAck) ==> session.react_all(events) == session,
        hears(events, MessageView::HandshakeAck) ==> session.react_all(events).state
            == ConnectionState::Connected,
        hears(events, MessageView::HandshakeAck) ==> !session.react_all(events).ping_outstanding,
        hears(events, MessageView::HandshakeAck) ==> session.react_all(events).ping_elapsed == 0,
    decreases events.len(),
{
    if events.len() > 0 {
        let before = events.drop_last();
        handshaking_fold(session, before);
        if hears(before, MessageView::HandshakeAck) {
            let i = choose|i: int|
                0 <= i < before.len() && carries(#[trigger] before[i], MessageView::HandshakeAck);
            assert(carries(events[i], MessageView::HandshakeAck));
        } else if carries(events.last(), MessageView::HandshakeAck) {
            assert(carries(events[events.len() - 1], MessageView::HandshakeAck));
        } else {
            if hears(events, MessageView::HandshakeAck) {
                let i = choose|i: int|
                    0 <= i < events.len() && carries(
                        #[trigger] events[i],
                        MessageView::HandshakeAck,
                    );
                if i < before.len() {
                    assert(carries(before[i], MessageView::HandshakeAck));
                }
            }
        }
    }
}

proof fn connected_fold(session: ClientConnectionView, events: Seq<NetEventView>)
    requires
        session.state == ConnectionState::Connected,
    ensures
        session.react_all(events).state == ConnectionState::Connected,
        !hears(events, MessageView::PingAck) ==> session.react_all(events) == session,
        hears(events, MessageView::PingAck) || !session.ping_outstanding
            ==> !session.react_all(events).ping_outstanding,
    decreases events.len(),
{
    if events.len() > 0 {
        let before = events.drop_last();
        connected_fold(session, before);
        if hears(before, MessageView::PingAck) {
            let i = choose|i: int|
                0 <= i < before.len() && carries(#[trigger] before[i], MessageView::PingAck);
            assert(carries(events[i], MessageView::PingAck));
        } else if carries(events.last(), MessageView::PingAck) {
            assert(carries(events[events.len() - 1], MessageView::PingAck));
        } else {
            if hears(events, MessageView::PingAck) {
                let i = choose|i: int|
                    0 <= i < events.len() && carries(#[trigger] events[i], MessageView::PingAck);
                if i < before.len() {
                    assert(carries(before[i], MessageView::PingAck));
                }
            }
        }
    }
}

proof fn silent_is_deaf(events: Seq<NetEventView>, message: MessageView)
    ensures
        silent_of(events, message) <==> !hears(events, message),
{
    if !hears(events, message) {
        assert forall|i: int| 0 <= i < events.len() implies !carries(
            #[trigger] events[i],
            message,
        ) by {}
    }
}

/// A handshake answer that is among a tick's events connects a handshaking
/// session in that very tick, however long the tick took: the answer counts
/// before the clock does.
pub proof fn handshake_ack_connects(
    session: ClientConnectionView,
    events: Seq<NetEventView>,
    delta: nat,
)
    requires
        session.state == ConnectionState::Handshaking,
        hears(events, MessageView::HandshakeAck),
    ensures
        session.tick(events, delta).state == ConnectionState::Connected,
        session.tick(events, delta).failure() is None,
{
    handshaking_fold(session, events);
}

/// A handshaking session that hears no answer keeps waiting, its clock adding
/// up the ticks, for as long as the time waited stays under the timeout. At the
/// first tick that brings it to the timeout the session is disconnected and
/// reports `HandshakeTimeout`, and it stays so: it never waits for ever.
pub proof fn unanswered_handshake(session: ClientConnectionView, ticks: Seq<Tick>)
    requires
        session.state == ConnectionState::Handshaking,
        session.handshake_elapsed < TIMEOUT_NANOS,
        ticks_silent_of(ticks, MessageView::HandshakeAck),
    ensures
        session.handshake_elapsed + total_delta(ticks) < TIMEOUT_NANOS ==> session.run(ticks) == (
        ClientConnectionView {
            handshake_elapsed: session.handshake_elapsed + total_delta(ticks),
            ..session
        }),
        session.handshake_elapsed + total_delta(ticks) >= TIMEOUT_NANOS ==> session.run(
            ticks,
        ).state == ConnectionState::Disconnected,
        session.handshake_elapsed + total_delta(ticks) >= TIMEOUT_NANOS ==> session.run(
            ticks,
        ).failure() == Some(SessionError::HandshakeTimeout),
    decreases ticks.len(),
{
    if ticks.len() > 0 {
        let before = ticks.drop_last();
        let last = ticks.last();
        assert forall|k: int| 0 <= k < before.len() implies silent_of(
            (#[trigger] before[k]).events,
            MessageView::HandshakeAck,
        ) by {
            assert(before[k] == ticks[k]);
        }
        unanswered_handshake(session, before);
        let reached = session.run(before);
        assert(silent_of(ticks[ticks.len() - 1].events, MessageView::HandshakeAck));
        if session.handshake_elapsed + total_delta(before) >= TIMEOUT_NANOS {
            failed_session_ignores(reached, last.events);
        } else {
            silent_is_deaf(last.events, MessageView::HandshakeAck);
            handshaking_fold(reached, last.events);
        }
    }
}

/// A handshake that is answered before the timeout connects: after any run
/// of unanswered ticks that stays under the timeout, a tick that brings the
/// answer leaves the session connected.
pub proof fn answered_handshake_connects(
    session: ClientConnectionView,
    waiting: Seq<Tick>,
    answer: Tick,
)
    requires
        session.state == ConnectionState::Handshaking,
        ticks_silent_of(waiting, MessageView::HandshakeAck),
        session.handshake_elapsed + total_delta(waiting) < TIMEOUT_NANOS,
        hears(answer.events, MessageView::HandshakeAck),
    ensures
        session.run(waiting.push(answer)).state == ConnectionState::Connected,
        session.run(waiting.push(answer)).failure() is None,
{
    unanswered_handshake(session, waiting);
    assert(waiting.push(answer).drop_last() =~= waiting);
    handshake_ack_connects(session.run(waiting), answer.events, answer.delta);
}

/// A ping answer that is among a tick's events keeps a connected session
/// connected through that tick, however long the tick took: no timeout fires
/// in a tick that brought the answer.
pub proof fn ping_ack_cancels_timeout(
    session: ClientConnectionView,
    events: Seq<NetEventView>,
    delta: nat,
)
    requires
        session.state == ConnectionState::Connected,
        hears(events, MessageView::PingAck),
    ensures
        session.tick(events, delta).state == ConnectionState::Connected,
        session.tick(events, delta).failure() is None,
{
    connected_fold(session, events);
}

proof fn quiet_keepalive(session: ClientConnectionView, ticks: Seq<Tick>)
    requires
        session.state == ConnectionState::Connected,
        !session.ping_outstanding,
        session.ping_elapsed < PING_INTERVAL_NANOS,
        ticks_silent_of(ticks, MessageView::PingAck),
    ensures
        ({
            let reached = session.run(ticks);
            let waited = session.ping_elapsed + total_delta(ticks);
            &&& reached.state == ConnectionState::Connected || reached.state
                == ConnectionState::TimedOut
            &&& reached.state == ConnectionState::Connected && !reached.ping_outstanding ==> {
                &&& reached.ping_elapsed == waited
                &&& waited < PING_INTERVAL_NANOS
            }
            &&& reached.state == ConnectionState::Connected && reached.ping_outstanding ==> {
                &&& reached.ping_elapsed + PING_INTERVAL_NANOS <= waited
                &&& reached.ping_elapsed < TIMEOUT_NANOS
            }
            &&& reached.state == ConnectionState::TimedOut ==> waited >= PING_INTERVAL_NANOS
                + TIMEOUT_NANOS
        }),
    decreases ticks.len(),
{
    if ticks.len() > 0 {
        let before = ticks.drop_last();
        let last = ticks.last();
        assert forall|k: int| 0 <= k < before.len() implies silent_of(
            (#[trigger] before[k]).events,
            MessageView::PingAck,
        ) by {
            assert(before[k] == ticks[k]);
        }
        quiet_keepalive(session, before);
        let reached = session.run(before);
        assert(silent_of(ticks[ticks.len() - 1].events, MessageView::PingAck));
        if reached.state == ConnectionState::TimedOut {
            failed_session_ignores(reached, last.events);
        } else {
            silent_is_deaf(last.events, MessageView::PingAck);
            connected_fold(reached, last.events);
        }
    }
}

/// A ping that is out and hears no answer is given the whole timeout: the
/// session stays connected, its clock adding up the ticks, for as long as the
/// time since the ping stays under the timeout, and is timed out at the first
/// tick that brings it there.
pub proof fn unanswered_ping(session: ClientConnectionView, ticks: Seq<Tick>)
    requires
        session.state == ConnectionState::Connected,
        session.ping_outstanding,
        session.ping_elapsed < TIMEOUT_NANOS,
        ticks_silent_of(ticks, MessageView::PingAck),
    ensures
        session.ping_elapsed + total_delta(ticks) < TIMEOUT_NANOS ==> session.run(ticks) == (
        ClientConnectionView { ping_elapsed: session.ping_elapsed + total_delta(ticks), ..session }),
        session.ping_elapsed + total_delta(ticks) >= TIMEOUT_NANOS ==> session.run(ticks).state
            == ConnectionState::TimedOut,
    decreases ticks.len(),
{
    if ticks.len() > 0 {
        let before = ticks.drop_last();
        let last = ticks.last();
        assert forall|k: int| 0 <= k < before.len() implies silent_of(
            (#[trigger] before[k]).events,
            MessageView::PingAck,
        ) by {
            assert(before[k] == ticks[k]);
        }
        unanswered_ping(session, before);
        let reached = session.run(before);
        assert(silent_of(ticks[ticks.len() - 1].events, MessageView::PingAck));
        if session.ping_elapsed + total_delta(before) >= TIMEOUT_NANOS {
            failed_session_ignores(reached, last.events);
        } else {
            silent_is_deaf(last.events, MessageView::PingAck);
            connected_fold(reached, last.events);
        }
    }
}

/// Running two runs of ticks one after the other is running them joined.
pub proof fn run_in_two_parts(session: ClientConnectionView, first: Seq<Tick>, second: Seq<Tick>)
    ensures
        session.run(first + second) == session.run(first).run(second),
        total_delta(first + second) == total_delta(first) + total_delta(second),
    decreases second.len(),
{
    if second.len() == 0 {
        assert(first + second =~= first);
    } else {
        assert((first + second).drop_last() =~= first + second.drop_last());
        assert((first + second).last() == second.last());
        run_in_two_parts(session, first, second.drop_last());
    }
}

/// A connected session whose last answer has just come, and which hears no
/// ping answer from then on, is not timed out before one ping interval and one
/// timeout have passed: until then it is still connected.
pub proof fn no_timeout_before_two_intervals(session: ClientConnectionView, ticks: Seq<Tick>)
    requires
        session.state == ConnectionState::Connected,
        !session.ping_outstanding,
        session.ping_elapsed == 0,
        ticks_silent_of(ticks, MessageView::PingAck),
    ensures
        session.run(ticks).state == ConnectionState::Connected || session.run(ticks).state
            == ConnectionState::TimedOut,
        session.run(ticks).state == ConnectionState::TimedOut ==> total_delta(ticks)
            >= PING_INTERVAL_NANOS + TIMEOUT_NANOS,
        total_delta(ticks) < PING_INTERVAL_NANOS + TIMEOUT_NANOS ==> session.run(ticks).state
            == ConnectionState::Connected,
{
    quiet_keepalive(session, ticks);
}

/// A connected session whose last answer has just come, and which hears no
/// ping answer from then on, does time out: once the ticks up to some point
/// cover the ping interval, and the ticks after it cover the timeout, the
/// session is timed out and reports `PingTimeout`.
pub proof fn silence_times_out(session: ClientConnectionView, ticks: Seq<Tick>, split: int)
    requires
        session.state == ConnectionState::Connected,
        !session.ping_outstanding,
        session.ping_elapsed == 0,
        ticks_silent_of(ticks, MessageView::PingAck),
        0 <= split <= ticks.len(),
        total_delta(ticks.take(split)) >= PING_INTERVAL_NANOS,
        total_delta(ticks.skip(split)) >= TIMEOUT_NANOS,
    ensures
        session.run(ticks).state == ConnectionState::TimedOut,
        session.run(ticks).failure() == Some(SessionError::PingTimeout),
{
    let first = ticks.take(split);
    let second = ticks.skip(split);
    assert(first + second =~= ticks);
    assert forall|k: int| 0 <= k < first.len() implies silent_of(
        (#[trigger] first[k]).events,
        MessageView::PingAck,
    ) by {
        assert(first[k] == ticks[k]);
    }
    assert forall|k: int| 0 <= k < second.len() implies silent_of(
        (#[trigger] second[k]).events,
        MessageView::PingAck,
    ) by {
        assert(second[k] == ticks[k + split]);
    }
    run_in_two_parts(session, first, second);
    quiet_keepalive(session, first);
    let reached = session.run(first);
    if reached.state == ConnectionState::TimedOut {
        failed_session_stays(reached, second);
    } else {
        unanswered_ping(reached, second);
    }
}

} // verus!
