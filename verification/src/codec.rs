//! The wire form of the messages: one JSON value per connection.
//!
//! A request is a JSON string that names the request's variant. A response is
//! a JSON object with the variant's name as its one key.

use crate::ipc::{ClientToServerMsg, RequestView, ResponseView, ServerToClientMsg};
use crate::json::{json_string_text, json_string_value, read_json_string, write_json_string};
use vstd::prelude::*;

verus! {

/// Why no request could be read from a connection.
#[derive(Debug, Clone, Copy, PartialEq, Eq, Structural)]
pub enum DecodeError {
    /// The stream ended before it carried a single byte.
    ConnectionClosed,
    /// The stream does not hold one well-formed request.
    MalformedMessage,
}

/// The request that a variant's name stands for.
pub open spec fn request_named(name: Seq<char>) -> RequestView {
    if name == "CreateSession"@ {
        RequestView::CreateSession
    } else {
        RequestView::Other(name)
    }
}

/// What a connection's payload decodes to.
pub open spec fn decoded(bytes: Seq<u8>) -> Result<RequestView, DecodeError> {
    if bytes.len() == 0 {
        Err(DecodeError::ConnectionClosed)
    } else {
        match json_string_value(bytes) {
            Some(name) => Ok(request_named(name)),
            None => Err(DecodeError::MalformedMessage),
        }
    }
}

/// The request that a variant's name stands for.
pub fn request_from_name(name: String) -> (request: ClientToServerMsg)
    ensures
        request@ == request_named(name@),
{
    let create_session = "CreateSession".to_owned();
    if name == create_session {
        ClientToServerMsg::CreateSession
    } else {
        ClientToServerMsg::Other(name)
    }
}

/// Reads the one request that a connection carried.
///
/// `bytes` is everything the client sent before it closed its side.
pub fn decode(bytes: &[u8]) -> (request: Result<ClientToServerMsg, DecodeError>)
    ensures
        match request {
            Ok(message) => decoded(bytes@) == Ok::<RequestView, DecodeError>(message@),
            Err(error) => decoded(bytes@) == Err::<RequestView, DecodeError>(error),
        },
{
    if bytes.len() == 0 {
        return Err(DecodeError::ConnectionClosed);
    }
    match read_json_string(bytes) {
        Ok(name) => Ok(request_from_name(name)),
        Err(_) => Err(DecodeError::MalformedMessage),
    }
}

/// The bytes of a text whose characters are all ASCII: one byte each.
pub open spec fn ascii(text: Seq<char>) -> Seq<u8> {
    Seq::new(text.len(), |i: int| text[i] as u8)
}

/// A number in decimal digits, without sign and without leading zeros.
pub open spec fn decimal(n: nat) -> Seq<u8>
    decreases n,
{
    if n < 10 {
        seq![(48 + n) as u8]
    } else {
        decimal(n / 10).push((48 + n % 10) as u8)
    }
}

/// The wire form of a `SessionInfo` response, given the JSON text of the
/// session's two names: an object under the key `SessionInfo` that holds
/// `id`, `conn_name` and `alias`, in this order and without whitespace.
pub open spec fn session_info_frame(id: u64, conn_name: Seq<u8>, alias: Seq<u8>) -> Seq<u8> {
    ascii("{\"SessionInfo\":{\"id\":"@) + decimal(id as nat) + ascii(",\"conn_name\":"@)
        + conn_name + ascii(",\"alias\":"@) + alias + ascii("}}"@)
}

/// The wire form of a response.
pub open spec fn encoded(message: ResponseView) -> Seq<u8> {
    match message {
        ResponseView::SessionInfo(session) => session_info_frame(
            session.id,
            json_string_text(session.conn_name),
            json_string_text(session.alias),
        ),
    }
}

fn push_ascii(out: &mut Vec<u8>, text: &str)
    requires
        text.is_ascii(),
    ensures
        final(out)@ == old(out)@ + ascii(text@),
{
    broadcast use vstd::string::is_ascii_spec_bytes;

    out.extend_from_slice(text.as_bytes());
}

fn push_decimal(out: &mut Vec<u8>, n: u64)
    ensures
        final(out)@ == old(out)@ + decimal(n as nat),
    decreases n,
{
    if n >= 10 {
        push_decimal(out, n / 10);
    }
    out.push(48 + (n % 10) as u8);
}

/// Writes a `SessionInfo` response around the JSON text of the session's two
/// names.
pub fn frame_session_info(id: u64, conn_name: &[u8], alias: &[u8]) -> (frame: Vec<u8>)
    ensures
        frame@ == session_info_frame(id, conn_name@, alias@),
{
    proof {
        reveal_strlit("{\"SessionInfo\":{\"id\":");
        reveal_strlit(",\"conn_name\":");
        reveal_strlit(",\"alias\":");
        reveal_strlit("}}");
    }
    let mut frame: Vec<u8> = Vec::new();
    push_ascii(&mut frame, "{\"SessionInfo\":{\"id\":");
    push_decimal(&mut frame, id);
    push_ascii(&mut frame, ",\"conn_name\":");
    frame.extend_from_slice(conn_name);
    push_ascii(&mut frame, ",\"alias\":");
    frame.extend_from_slice(alias);
    push_ascii(&mut frame, "}}");
    frame
}

/// Writes the one response that a connection gets.
pub fn encode(message: &ServerToClientMsg) -> (bytes: Vec<u8>)
    ensures
        bytes@ == encoded(message@),
{
    match message {
        ServerToClientMsg::SessionInfo(session) => {
            let conn_name = write_json_string(session.conn_name.as_str()).unwrap();
            let alias = write_json_string(session.alias.as_str()).unwrap();
            frame_session_info(session.id, conn_name.as_slice(), alias.as_slice())
        },
    }
}

} // verus!
