//! What holds of the server, whatever its driver reports.

use crate::codec::{decoded, encoded, DecodeError};
use crate::ipc::{RequestView, ResponseView};
use crate::provision::Provisioner;
use crate::server::{
    outcome_of, serving, transition, ActionView, Discard, EventView, ServerState,
};
use crate::session::new_session;
use vstd::prelude::*;

verus! {

/// The state after all of `events`, taken in order.
pub open spec fn run(state: ServerState, events: Seq<EventView>) -> ServerState
    decreases events.len(),
{
    if events.len() == 0 {
        state
    } else {
        transition(run(state, events.drop_last()), events.last()).0
    }
}

/// `n` connection attempts in a row that fail at the transport.
pub open spec fn failed_attempts(n: nat) -> Seq<EventView> {
    Seq::new(n, |i: int| EventView::ConnectFailed)
}

/// What the driver reports of a connection whose client sends `payload` and
/// closes: the connection is accepted, read, and closed.
pub open spec fn connection(payload: Seq<u8>) -> Seq<EventView> {
    seq![EventView::Connected, EventView::Received(payload), EventView::Released]
}

/// `n` connections in a row whose clients close without sending a byte.
pub open spec fn silent_connections(n: nat) -> Seq<EventView>
    decreases n,
{
    if n == 0 {
        Seq::empty()
    } else {
        silent_connections((n - 1) as nat) + connection(Seq::empty())
    }
}

/// Running over two courses of events, one after the other, is running over
/// both at once.
pub proof fn lemma_run_concat(state: ServerState, first: Seq<EventView>, second: Seq<EventView>)
    ensures
        run(state, first + second) == run(run(state, first), second),
    decreases second.len(),
{
    if second.len() == 0 {
        assert(first + second =~= first);
    } else {
        lemma_run_concat(state, first, second.drop_last());
        assert((first + second).drop_last() =~= first + second.drop_last());
    }
}

/// One more event is one more step.
pub proof fn lemma_run_push(state: ServerState, events: Seq<EventView>, event: EventView)
    ensures
        run(state, events.push(event)) == transition(run(state, events), event).0,
{
    assert(events.push(event).drop_last() =~= events);
}

/// One whole connection takes an accepting server back to accepting.
pub proof fn lemma_connection_returns(payload: Seq<u8>)
    ensures
        run(ServerState::Accepting, connection(payload)) == ServerState::Accepting,
{
    let none = Seq::<EventView>::empty();
    let one = none.push(EventView::Connected);
    let two = one.push(EventView::Received(payload));
    lemma_run_push(ServerState::Accepting, none, EventView::Connected);
    lemma_run_push(ServerState::Accepting, one, EventView::Received(payload));
    lemma_run_push(ServerState::Accepting, two, EventView::Released);
    assert(two.push(EventView::Released) =~= connection(payload));
}

/// The accept loop has no way out. Once the server serves, every event leaves
/// it serving, and no event makes it ask for the process to stop.
pub proof fn serving_never_stops(state: ServerState, event: EventView)
    requires
        serving(state),
    ensures
        serving(transition(state, event).0),
        !(transition(state, event).1 is Abort),
{
}

/// The accept loop has no way out, over any course of events.
pub proof fn serving_is_forever(state: ServerState, events: Seq<EventView>)
    requires
        serving(state),
    ensures
        serving(run(state, events)),
    decreases events.len(),
{
    if events.len() > 0 {
        serving_is_forever(state, events.drop_last());
    }
}

/// The process detaches only when a bind has just succeeded, and the server
/// starts to accept only when the process has just detached: the listener is
/// there before the launcher is let go, so a failed bind is the launcher's to
/// see.
pub proof fn listener_before_detachment(state: ServerState, event: EventView)
    ensures
        transition(state, event).1 is Daemonize ==> {
            &&& state matches ServerState::Provisioning(provisioner)
            &&& event matches EventView::Provision(outcome)
            &&& provisioner.next(outcome) == Provisioner::Bound
            &&& transition(state, event).0 == ServerState::Daemonizing
        },
        !serving(state) && serving(transition(state, event).0) ==> {
            &&& state == ServerState::Daemonizing
            &&& event == EventView::Daemonized
            &&& transition(state, event) == (ServerState::Accepting, ActionView::Accept)
        },
{
}

/// A connection is used once. The server reads from a connection only when
/// it has just been accepted, so no connection is read twice; and it sends a
/// response only for what it has just read, and only where that decodes to a
/// request with a handler.
pub proof fn one_request_per_connection(state: ServerState, event: EventView)
    ensures
        transition(state, event).1 is Receive ==> state == ServerState::Accepting && event
            == EventView::Connected,
        transition(state, event).1 is Respond ==> {
            &&& state == ServerState::Receiving
            &&& event matches EventView::Received(payload)
            &&& decoded(payload) == Ok::<RequestView, DecodeError>(RequestView::CreateSession)
            &&& transition(state, event).0 == ServerState::Releasing
        },
{
}

/// A connection attempt that fails at the transport does not end the accept
/// loop: after any number of failed attempts the server still accepts, and
/// the next attempt that succeeds is served.
pub proof fn failed_attempts_are_passed_over(n: nat)
    ensures
        transition(ServerState::Accepting, EventView::ConnectFailed) == (
            ServerState::Accepting,
            ActionView::Accept,
        ),
        run(ServerState::Accepting, failed_attempts(n)) == ServerState::Accepting,
        transition(run(ServerState::Accepting, failed_attempts(n)), EventView::Connected) == (
            ServerState::Receiving,
            ActionView::Receive,
        ),
    decreases n,
{
    if n > 0 {
        failed_attempts_are_passed_over((n - 1) as nat);
        assert(failed_attempts(n).drop_last() =~= failed_attempts((n - 1) as nat));
    }
}

/// A `CreateSession` request gets exactly one response, the `SessionInfo` of
/// a new session, and does not keep the server from the next connection:
/// once the connection is closed the server accepts again. While it waits for
/// the connection to close it asks for no second response, whatever the
/// driver reports.
pub proof fn create_session_is_answered_once(payload: Seq<u8>, later: EventView)
    ensures
        decoded(payload) == Ok::<RequestView, DecodeError>(RequestView::CreateSession)
            ==> transition(ServerState::Receiving, EventView::Received(payload)) == (
            ServerState::Releasing,
            ActionView::Respond(encoded(ResponseView::SessionInfo(new_session()))),
        ),
        !(transition(ServerState::Releasing, later).1 is Respond),
        transition(ServerState::Releasing, EventView::Released) == (
            ServerState::Accepting,
            ActionView::Accept,
        ),
{
}

/// A request without a handler gets no response, and the server stays
/// available: the connection is closed and the server accepts again.
pub proof fn unhandled_request_is_left_unanswered(payload: Seq<u8>, name: Seq<char>)
    ensures
        decoded(payload) == Ok::<RequestView, DecodeError>(RequestView::Other(name))
            ==> transition(ServerState::Receiving, EventView::Received(payload)) == (
            ServerState::Releasing,
            ActionView::Discard(Discard::Unanswered),
        ),
        transition(ServerState::Releasing, EventView::Released) == (
            ServerState::Accepting,
            ActionView::Accept,
        ),
{
}

/// A payload that does not decode costs its connection and nothing else: the
/// connection is closed without a response, the server does not stop, and it
/// accepts again.
pub proof fn undecodable_payload_closes_connection(payload: Seq<u8>, error: DecodeError)
    ensures
        decoded(payload) == Err::<RequestView, DecodeError>(error) ==> transition(
            ServerState::Receiving,
            EventView::Received(payload),
        ) == (ServerState::Releasing, ActionView::Discard(Discard::Undecodable(error))),
        run(ServerState::Accepting, connection(payload)) == ServerState::Accepting,
{
    lemma_connection_returns(payload);
}

/// Clients that connect and close without sending a byte are each turned
/// away as a closed connection, and after any number of them the server
/// accepts the next connection.
pub proof fn silent_connections_leave_server_accepting(n: nat)
    ensures
        transition(ServerState::Receiving, EventView::Received(Seq::empty())) == (
            ServerState::Releasing,
            ActionView::Discard(Discard::Undecodable(DecodeError::ConnectionClosed)),
        ),
        run(ServerState::Accepting, silent_connections(n)) == ServerState::Accepting,
        transition(run(ServerState::Accepting, silent_connections(n)), EventView::Connected) == (
            ServerState::Receiving,
            ActionView::Receive,
        ),
    decreases n,
{
    if n > 0 {
        silent_connections_leave_server_accepting((n - 1) as nat);
        lemma_run_concat(
            ServerState::Accepting,
            silent_connections((n - 1) as nat),
            connection(Seq::empty()),
        );
        lemma_connection_returns(Seq::empty());
    }
}

/// What a connection is answered does not depend on the connections before
/// it: whatever course of events led the server to an open connection, the
/// answer is decided by that connection's payload alone.
pub proof fn answers_do_not_depend_on_history(
    start: ServerState,
    earlier: Seq<EventView>,
    payload: Seq<u8>,
)
    ensures
        run(start, earlier) is Receiving ==> transition(
            run(start, earlier),
            EventView::Received(payload),
        ).1 == outcome_of(decoded(payload)),
{
}

} // verus!
