//! The messages exchanged between a client and the server.

use vstd::prelude::*;

verus! {

/// Identity record of a session.
#[derive(Debug, Clone, PartialEq, Eq)]
pub struct Session {
    pub id: u64,
    pub conn_name: String,
    pub alias: String,
}

/// What a [`Session`] is, with its texts as sequences of characters.
pub struct SessionView {
    pub id: u64,
    pub conn_name: Seq<char>,
    pub alias: Seq<char>,
}

impl View for Session {
    type V = SessionView;

    open spec fn view(&self) -> SessionView {
        SessionView { id: self.id, conn_name: self.conn_name@, alias: self.alias@ }
    }
}

/// A request, sent by a client.
#[derive(Debug, Clone, PartialEq, Eq)]
pub enum ClientToServerMsg {
    /// Asks for a new session.
    CreateSession,
    /// Any other request, by the name of its variant. The server has no
    /// handler for it.
    Other(String),
}

/// What a [`ClientToServerMsg`] is.
pub enum RequestView {
    CreateSession,
    Other(Seq<char>),
}

impl View for ClientToServerMsg {
    type V = RequestView;

    open spec fn view(&self) -> RequestView {
        match self {
            ClientToServerMsg::CreateSession => RequestView::CreateSession,
            ClientToServerMsg::Other(name) => RequestView::Other(name@),
        }
    }
}

/// A response, sent by the server.
#[derive(Debug, Clone, PartialEq, Eq)]
pub enum ServerToClientMsg {
    /// The session that a `CreateSession` request made.
    SessionInfo(Session),
}

/// What a [`ServerToClientMsg`] is.
pub enum ResponseView {
    SessionInfo(SessionView),
}

impl View for ServerToClientMsg {
    type V = ResponseView;

    open spec fn view(&self) -> ResponseView {
        match self {
            ServerToClientMsg::SessionInfo(session) => ResponseView::SessionInfo(session@),
        }
    }
}

} // verus!
