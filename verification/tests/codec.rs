use ipc_server::codec::{decode, encode, frame_session_info, request_from_name, DecodeError};
use ipc_server::ipc::{ClientToServerMsg, ServerToClientMsg, Session};

fn session(id: u64, conn_name: &str, alias: &str) -> Session {
    Session { id, conn_name: conn_name.to_string(), alias: alias.to_string() }
}

#[test]
fn decode_create_session() {
    assert_eq!(decode(b"\"CreateSession\""), Ok(ClientToServerMsg::CreateSession));
}

#[test]
fn decode_allows_whitespace_around_the_value() {
    assert_eq!(decode(b"  \"CreateSession\"\n"), Ok(ClientToServerMsg::CreateSession));
}

#[test]
fn decode_reads_escapes_in_the_name() {
    assert_eq!(decode(b"\"Create\\u0053ession\""), Ok(ClientToServerMsg::CreateSession));
}

#[test]
fn decode_other_request_keeps_its_name() {
    assert_eq!(
        decode(b"\"ListSessions\""),
        Ok(ClientToServerMsg::Other("ListSessions".to_string()))
    );
    assert_eq!(decode(b"\"\""), Ok(ClientToServerMsg::Other(String::new())));
    assert_eq!(
        decode(b"\"createsession\""),
        Ok(ClientToServerMsg::Other("createsession".to_string()))
    );
}

#[test]
fn decode_empty_stream_is_connection_closed() {
    assert_eq!(decode(b""), Err(DecodeError::ConnectionClosed));
}

#[test]
fn decode_malformed_payloads() {
    let payloads: [&[u8]; 10] = [
        b"CreateSession",
        b"\"CreateSession",
        b"\"CreateSession\" \"CreateSession\"",
        b"\"CreateSession\"x",
        b"{",
        b"{\"CreateSession\":null}",
        b"12345",
        b"null",
        b" ",
        b"\"\xff\"",
    ];
    for payload in payloads {
        assert_eq!(decode(payload), Err(DecodeError::MalformedMessage));
    }
}

#[test]
fn request_from_name_tells_create_session_from_the_rest() {
    assert_eq!(request_from_name("CreateSession".to_string()), ClientToServerMsg::CreateSession);
    assert_eq!(
        request_from_name("\"CreateSession\"".to_string()),
        ClientToServerMsg::Other("\"CreateSession\"".to_string())
    );
    assert_eq!(
        request_from_name("DetachSession".to_string()),
        ClientToServerMsg::Other("DetachSession".to_string())
    );
}

#[test]
fn encode_session_info_exact_bytes() {
    let message = ServerToClientMsg::SessionInfo(session(12345, "bar", "foo"));
    assert_eq!(
        encode(&message),
        b"{\"SessionInfo\":{\"id\":12345,\"conn_name\":\"bar\",\"alias\":\"foo\"}}".to_vec()
    );
}

#[test]
fn encode_escapes_the_names() {
    let message = ServerToClientMsg::SessionInfo(session(0, "a\"b\\c\n", "\u{1}\u{e9}"));
    assert_eq!(
        encode(&message),
        "{\"SessionInfo\":{\"id\":0,\"conn_name\":\"a\\\"b\\\\c\\n\",\"alias\":\"\\u0001\u{e9}\"}}"
            .as_bytes()
            .to_vec()
    );
}

#[test]
fn encoded_response_is_json_that_holds_the_session() {
    let names = ["bar", "", "tab\there", "quote\"d", "\u{7f}\u{0}", "caf\u{e9} \u{1f600}"];
    for (index, name) in names.iter().enumerate() {
        let id = 7 * index as u64;
        let bytes = encode(&ServerToClientMsg::SessionInfo(session(id, name, "alias")));
        let value: serde_json::Value = serde_json::from_slice(&bytes).unwrap();
        let object = value.as_object().unwrap();
        assert_eq!(object.len(), 1);
        let info = object.get("SessionInfo").unwrap().as_object().unwrap();
        assert_eq!(info.len(), 3);
        assert_eq!(info.get("id").unwrap().as_u64(), Some(id));
        assert_eq!(info.get("conn_name").unwrap().as_str(), Some(*name));
        assert_eq!(info.get("alias").unwrap().as_str(), Some("alias"));
    }
}

#[test]
fn frame_session_info_exact_bytes() {
    assert_eq!(
        frame_session_info(7, b"\"x\"", b"\"\""),
        b"{\"SessionInfo\":{\"id\":7,\"conn_name\":\"x\",\"alias\":\"\"}}".to_vec()
    );
    assert_eq!(
        frame_session_info(0, b"", b""),
        b"{\"SessionInfo\":{\"id\":0,\"conn_name\":,\"alias\":}}".to_vec()
    );
}

#[test]
fn frame_session_info_writes_the_id_in_decimal() {
    let ids: [u64; 8] = [0, 9, 10, 99, 100, 12345, 1_000_000_007, u64::MAX];
    for id in ids {
        let frame = frame_session_info(id, b"1", b"2");
        let expected = format!("{{\"SessionInfo\":{{\"id\":{},\"conn_name\":1,\"alias\":2}}}}", id);
        assert_eq!(frame, expected.as_bytes().to_vec());
    }
    let frame = frame_session_info(u64::MAX, b"1", b"2");
    assert_eq!(
        frame,
        b"{\"SessionInfo\":{\"id\":18446744073709551615,\"conn_name\":1,\"alias\":2}}".to_vec()
    );
}
