//! Making sessions.

use crate::ipc::{Session, SessionView};
use vstd::prelude::*;

verus! {

/// The identity that every new session gets.
pub open spec fn new_session() -> SessionView {
    SessionView { id: 12345, conn_name: "bar"@, alias: "foo"@ }
}

/// Makes the session that answers a `CreateSession` request.
///
/// The server keeps no record of it: the session is the caller's.
pub fn create_session() -> (session: Session)
    ensures
        session@ == new_session(),
        session@.conn_name.len() > 0,
        session@.alias.len() > 0,
{
    proof {
        reveal_strlit("bar");
        reveal_strlit("foo");
    }
    Session { id: 12345, conn_name: "bar".to_owned(), alias: "foo".to_owned() }
}

} // verus!
