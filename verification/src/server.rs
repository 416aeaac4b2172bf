//! The server's life, as a machine that a driver runs.
//!
//! The server binds its endpoint, detaches from its launcher, and then serves
//! connections one at a time, for ever. The driver does the work on the
//! outside: it carries out a [`ServerAction`], reports what came of it as a
//! [`ServerEvent`], and gets the next action from [`step`].
//!
//! Before the server serves, every failure is fatal. Once it serves, nothing
//! is: whatever happens on a connection ends with that connection.

use crate::codec::{decode, decoded, encode, encoded, DecodeError};
use crate::dispatch::{dispatch, response_to};
use crate::ipc::{ClientToServerMsg, RequestView};
use crate::provision::{
    ProvisionAction, ProvisionError, ProvisionEvent, Provisioner, Recovery,
};
use vstd::prelude::*;

verus! {

/// Why the server stopped before it served.
#[derive(Debug, Clone, Copy, PartialEq, Eq, Structural)]
pub enum FatalError {
    /// No listener could be had.
    Provision(ProvisionError),
    /// The process could not detach.
    DaemonizeFailed,
    /// The driver reported an outcome of something it was not asked to do.
    OutOfTurn,
}

/// Why a connection is closed without a response.
#[derive(Debug, Clone, Copy, PartialEq, Eq, Structural)]
pub enum Discard {
    /// The request has no handler.
    Unanswered,
    /// No request could be read from what the client sent.
    Undecodable(DecodeError),
    /// The transport failed while the client's bytes were read.
    ReceiveFailed,
    /// The driver reported an outcome of something it was not asked to do.
    OutOfTurn,
}

/// Where the server stands.
#[derive(Debug, Clone, Copy, PartialEq, Eq, Structural)]
pub enum ServerState {
    /// The endpoint is being acquired.
    Provisioning(Provisioner),
    /// The listener is bound and the process is detaching.
    Daemonizing,
    /// The server waits for the next connection attempt.
    Accepting,
    /// A connection is open and the server waits for what the client sends.
    Receiving,
    /// The connection has its answer and the server waits for it to be closed.
    Releasing,
    /// The server stopped.
    Halted(FatalError),
}

/// What the driver reports.
#[derive(Debug, Clone, PartialEq, Eq)]
pub enum ServerEvent {
    /// An outcome of a bind or of a repair.
    Provision(ProvisionEvent),
    /// The process runs detached.
    Daemonized,
    /// The process could not detach.
    DaemonizeFailed,
    /// A connection was accepted.
    Connected,
    /// A connection attempt failed at the transport.
    ConnectFailed,
    /// The client closed its side after sending these bytes.
    Received(Vec<u8>),
    /// The transport failed before the client closed its side.
    ReceiveFailed,
    /// The connection is closed.
    Released,
}

/// What a [`ServerEvent`] is.
pub enum EventView {
    Provision(ProvisionEvent),
    Daemonized,
    DaemonizeFailed,
    Connected,
    ConnectFailed,
    Received(Seq<u8>),
    ReceiveFailed,
    Released,
}

impl View for ServerEvent {
    type V = EventView;

    open spec fn view(&self) -> EventView {
        match self {
            ServerEvent::Provision(outcome) => EventView::Provision(*outcome),
            ServerEvent::Daemonized => EventView::Daemonized,
            ServerEvent::DaemonizeFailed => EventView::DaemonizeFailed,
            ServerEvent::Connected => EventView::Connected,
            ServerEvent::ConnectFailed => EventView::ConnectFailed,
            ServerEvent::Received(payload) => EventView::Received(payload@),
            ServerEvent::ReceiveFailed => EventView::ReceiveFailed,
            ServerEvent::Released => EventView::Released,
        }
    }
}

/// What the driver is asked to do.
#[derive(Debug, Clone, PartialEq, Eq)]
pub enum ServerAction {
    /// Bind a listener at the endpoint.
    Bind,
    /// Repair the filesystem.
    Recover(Recovery),
    /// Detach from the launcher and tell it that the server runs.
    Daemonize,
    /// Wait for the next connection attempt.
    Accept,
    /// Read what the client sends until it closes its side.
    Receive,
    /// Send these bytes to the client, then close the connection.
    Respond(Vec<u8>),
    /// Close the connection without a response.
    Discard(Discard),
    /// Stop the process with this error.
    Abort(FatalError),
}

/// What a [`ServerAction`] is.
pub enum ActionView {
    Bind,
    Recover(Recovery),
    Daemonize,
    Accept,
    Receive,
    Respond(Seq<u8>),
    Discard(Discard),
    Abort(FatalError),
}

impl View for ServerAction {
    type V = ActionView;

    open spec fn view(&self) -> ActionView {
        match self {
            ServerAction::Bind => ActionView::Bind,
            ServerAction::Recover(recovery) => ActionView::Recover(*recovery),
            ServerAction::Daemonize => ActionView::Daemonize,
            ServerAction::Accept => ActionView::Accept,
            ServerAction::Receive => ActionView::Receive,
            ServerAction::Respond(bytes) => ActionView::Respond(bytes@),
            ServerAction::Discard(reason) => ActionView::Discard(*reason),
            ServerAction::Abort(error) => ActionView::Abort(*error),
        }
    }
}

/// The server is past its start: it waits for a connection or has one open.
pub open spec fn serving(state: ServerState) -> bool {
    state is Accepting || state is Receiving || state is Releasing
}

/// Where the server stands once provisioning stands at `provisioner`: a bound
/// listener lets the process detach, and a failure stops the server.
pub open spec fn provisioned(provisioner: Provisioner) -> (ServerState, ActionView) {
    match provisioner.action() {
        ProvisionAction::Bind => (ServerState::Provisioning(provisioner), ActionView::Bind),
        ProvisionAction::Recover(recovery) => (
            ServerState::Provisioning(provisioner),
            ActionView::Recover(recovery),
        ),
        ProvisionAction::Finish => (ServerState::Daemonizing, ActionView::Daemonize),
        ProvisionAction::Abort(error) => (
            ServerState::Halted(FatalError::Provision(error)),
            ActionView::Abort(FatalError::Provision(error)),
        ),
    }
}

/// How a connection ends, given what was read from it: a request with a
/// handler is answered with its encoded response, and everything else closes
/// the connection without one.
pub open spec fn outcome_of(request: Result<RequestView, DecodeError>) -> ActionView {
    match request {
        Ok(message) => match response_to(message) {
            Some(response) => ActionView::Respond(encoded(response)),
            None => ActionView::Discard(Discard::Unanswered),
        },
        Err(error) => ActionView::Discard(Discard::Undecodable(error)),
    }
}

/// The state that follows `state` on `event`, and what the driver is to do
/// next.
pub open spec fn transition(state: ServerState, event: EventView) -> (ServerState, ActionView) {
    match state {
        ServerState::Provisioning(provisioner) => match event {
            EventView::Provision(outcome) => provisioned(provisioner.next(outcome)),
            _ => halted(FatalError::OutOfTurn),
        },
        ServerState::Daemonizing => match event {
            EventView::Daemonized => (ServerState::Accepting, ActionView::Accept),
            EventView::DaemonizeFailed => halted(FatalError::DaemonizeFailed),
            _ => halted(FatalError::OutOfTurn),
        },
        ServerState::Accepting => match event {
            EventView::Connected => (ServerState::Receiving, ActionView::Receive),
            _ => (ServerState::Accepting, ActionView::Accept),
        },
        ServerState::Receiving => (
            ServerState::Releasing,
            match event {
                EventView::Received(payload) => outcome_of(decoded(payload)),
                EventView::ReceiveFailed => ActionView::Discard(Discard::ReceiveFailed),
                _ => ActionView::Discard(Discard::OutOfTurn),
            },
        ),
        ServerState::Releasing => match event {
            EventView::Released => (ServerState::Accepting, ActionView::Accept),
            _ => (ServerState::Releasing, ActionView::Discard(Discard::OutOfTurn)),
        },
        ServerState::Halted(error) => halted(error),
    }
}

/// The server, stopped with `error`.
pub open spec fn halted(error: FatalError) -> (ServerState, ActionView) {
    (ServerState::Halted(error), ActionView::Abort(error))
}

/// Keeps a connection that was accepted and drops an attempt that failed.
pub fn handle_error<C, E>(conn: Result<C, E>) -> (accepted: Option<C>)
    ensures
        accepted == match conn {
            Ok(stream) => Some(stream),
            Err(_) => None,
        },
{
    match conn {
        Ok(stream) => Some(stream),
        Err(_) => None,
    }
}

/// The server before anything was tried, and the first thing to do: bind.
pub fn start() -> (first: (ServerState, ServerAction))
    ensures
        first.0 == ServerState::Provisioning(Provisioner::Binding),
        first.1@ == ActionView::Bind,
{
    (ServerState::Provisioning(Provisioner::new()), ServerAction::Bind)
}

/// Decides how a connection ends, given what was read from it.
pub fn conclude(request: Result<ClientToServerMsg, DecodeError>) -> (action: ServerAction)
    ensures
        action@ == outcome_of(
            match request {
                Ok(message) => Ok(message@),
                Err(error) => Err(error),
            },
        ),
{
    match request {
        Ok(message) => match dispatch(message) {
            Some(response) => ServerAction::Respond(encode(&response)),
            None => ServerAction::Discard(Discard::Unanswered),
        },
        Err(error) => ServerAction::Discard(Discard::Undecodable(error)),
    }
}

fn enter(provisioner: Provisioner) -> (entered: (ServerState, ServerAction))
    ensures
        entered.0 == provisioned(provisioner).0,
        entered.1@ == provisioned(provisioner).1,
{
    match provisioner.pending() {
        ProvisionAction::Bind => (ServerState::Provisioning(provisioner), ServerAction::Bind),
        ProvisionAction::Recover(recovery) => (
            ServerState::Provisioning(provisioner),
            ServerAction::Recover(recovery),
        ),
        ProvisionAction::Finish => (ServerState::Daemonizing, ServerAction::Daemonize),
        ProvisionAction::Abort(error) => halt(FatalError::Provision(error)),
    }
}

fn halt(error: FatalError) -> (stopped: (ServerState, ServerAction))
    ensures
        stopped.0 == halted(error).0,
        stopped.1@ == halted(error).1,
{
    (ServerState::Halted(error), ServerAction::Abort(error))
}

/// Takes in the outcome of the last action and says what to do next.
pub fn step(state: ServerState, event: ServerEvent) -> (next: (ServerState, ServerAction))
    ensures
        next.0 == transition(state, event@).0,
        next.1@ == transition(state, event@).1,
{
    match state {
        ServerState::Provisioning(provisioner) => match event {
            ServerEvent::Provision(outcome) => enter(provisioner.on(outcome)),
            _ => halt(FatalError::OutOfTurn),
        },
        ServerState::Daemonizing => match event {
            ServerEvent::Daemonized => (ServerState::Accepting, ServerAction::Accept),
            ServerEvent::DaemonizeFailed => halt(FatalError::DaemonizeFailed),
            _ => halt(FatalError::OutOfTurn),
        },
        ServerState::Accepting => match event {
            ServerEvent::Connected => (ServerState::Receiving, ServerAction::Receive),
            _ => (ServerState::Accepting, ServerAction::Accept),
        },
        ServerState::Receiving => {
            let action = match event {
                ServerEvent::Received(payload) => conclude(decode(payload.as_slice())),
                ServerEvent::ReceiveFailed => ServerAction::Discard(Discard::ReceiveFailed),
                _ => ServerAction::Discard(Discard::OutOfTurn),
            };
            (ServerState::Releasing, action)
        },
        ServerState::Releasing => match event {
            ServerEvent::Released => (ServerState::Accepting, ServerAction::Accept),
            _ => (ServerState::Releasing, ServerAction::Discard(Discard::OutOfTurn)),
        },
        ServerState::Halted(error) => halt(error),
    }
}

} // verus!
