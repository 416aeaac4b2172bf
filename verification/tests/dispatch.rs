use ipc_server::dispatch::dispatch;
use ipc_server::ipc::{ClientToServerMsg, ServerToClientMsg, Session};
use ipc_server::session::create_session;

#[test]
fn create_session_gives_the_session_identity() {
    let session = create_session();
    assert_eq!(session.id, 12345);
    assert_eq!(session.conn_name, "bar");
    assert_eq!(session.alias, "foo");
    assert!(!session.conn_name.is_empty());
    assert!(!session.alias.is_empty());
}

#[test]
fn dispatch_create_session_gives_session_info() {
    let expected = Session { id: 12345, conn_name: "bar".to_string(), alias: "foo".to_string() };
    assert_eq!(
        dispatch(ClientToServerMsg::CreateSession),
        Some(ServerToClientMsg::SessionInfo(expected))
    );
}

#[test]
fn dispatch_twice_gives_equal_responses() {
    let first = dispatch(ClientToServerMsg::CreateSession);
    let second = dispatch(ClientToServerMsg::CreateSession);
    assert!(first.is_some());
    assert_eq!(first, second);
}

#[test]
fn dispatch_other_requests_gives_nothing() {
    for name in ["ListSessions", "AttachToSession", "", "CreateSession"] {
        assert_eq!(dispatch(ClientToServerMsg::Other(name.to_string())), None);
    }
}
