//! From a request to its response.

use crate::ipc::{ClientToServerMsg, RequestView, ResponseView, ServerToClientMsg};
use crate::session::{create_session, new_session};
use vstd::prelude::*;

verus! {

/// The response that a request is owed, if it is owed one.
///
/// Only `CreateSession` has a handler. A request without one gets no response
/// at all, and handling it changes nothing.
pub open spec fn response_to(request: RequestView) -> Option<ResponseView> {
    match request {
        RequestView::CreateSession => Some(ResponseView::SessionInfo(new_session())),
        RequestView::Other(_) => None,
    }
}

/// Handles one request.
pub fn dispatch(request: ClientToServerMsg) -> (response: Option<ServerToClientMsg>)
    ensures
        match response {
            Some(message) => response_to(request@) == Some(message@),
            None => response_to(request@) is None,
        },
{
    match request {
        ClientToServerMsg::CreateSession => Some(ServerToClientMsg::SessionInfo(create_session())),
        ClientToServerMsg::Other(_) => None,
    }
}

} // verus!
