//! The state machine of the mock stream server used in tests: it greets a new
//! client, authenticates it, then answers its heartbeats.
use vstd::prelude::*;

use crate::messages::{
    AuthenticationMessage, ConnectionMessage, HeartbeatMessage, RequestMessage, ResponseMessage,
    StatusMessage, StatusSuccess,
};

verus! {

/// Represents the connection states for a client.
#[derive(Clone, Copy, Debug, PartialEq, Eq, PartialOrd, Structural)]
pub enum ConnState {
    /// The client is connected.
    Connected,
    /// The client is waiting for authentication information.
    WaitingForAuthInfo,
}

/// Represents the state of a logged-in client, including a heartbeat counter.
#[derive(Clone, Copy, Debug, PartialEq, Eq, PartialOrd, Structural)]
pub struct SubSate {
    /// The number of heartbeats sent by the client.
    pub heartbeat_counter: u64,
}

/// Represents the various states a client can be in.
#[derive(Clone, Copy, Debug, PartialEq, Eq, PartialOrd, Structural)]
pub enum ClientState {
    /// The client is initializing.
    Init(ConnState),
    /// The client is logged in.
    LoggedIn(SubSate),
}

/// The connection id that the mock server hands out.
pub open spec fn mock_connection_id() -> Seq<char> {
    "conn_id_fake123"@
}

/// Whether `c` is the mock connection id.
pub open spec fn is_mock_connection_id(c: Option<String>) -> bool {
    match c {
        Some(x) => x@ == mock_connection_id(),
        None => false,
    }
}

/// Whether the server reads a request from the client in `state` (it does not
/// when it has yet to greet the client).
pub open spec fn reads_request(state: ClientState) -> bool {
    state != ClientState::Init(ConnState::Connected)
}

/// Whether the server can take `request` in `state`: while authenticating it
/// takes only an authentication, once logged in only a heartbeat (and no more
/// heartbeats than its counter can count). The server stops on any other
/// request.
pub open spec fn accepts(state: ClientState, request: Option<RequestMessage>) -> bool {
    match (state, request) {
        (ClientState::Init(ConnState::WaitingForAuthInfo), Some(r)) => r is Authentication,
        (ClientState::LoggedIn(s), Some(r)) => r is Heartbeat && s.heartbeat_counter < u64::MAX,
        _ => true,
    }
}

/// One step of the server: the next state and the reply to send. A new client
/// is greeted with a connection message; an authentication is answered with a
/// success status that carries its id and logs the client in; a heartbeat is
/// answered with a status without code and counted. When no request arrived the
/// state stays and nothing is sent.
pub open spec fn server_step(state: ClientState, request: Option<RequestMessage>, next: ClientState, reply: Option<ResponseMessage>) -> bool {
    match state {
        ClientState::Init(ConnState::Connected) => {
            &&& next == ClientState::Init(ConnState::WaitingForAuthInfo)
            &&& reply matches Some(ResponseMessage::Connection(c)) && c.id == Some(1i32)
                && is_mock_connection_id(c.connection_id)
        },
        ClientState::Init(ConnState::WaitingForAuthInfo) => match request {
            None => next == state && reply.is_none(),
            Some(RequestMessage::Authentication(a)) => {
                &&& next == ClientState::LoggedIn(SubSate { heartbeat_counter: 0 })
                &&& reply matches Some(ResponseMessage::Status(StatusMessage::Success(s)))
                    && s.id == a.id && s.connection_closed.is_none() && s.connections_available == Some(42i32)
                    && is_mock_connection_id(s.connection_id)
            },
            Some(_) => false,
        },
        ClientState::LoggedIn(sub) => match request {
            None => next == state && reply.is_none(),
            Some(RequestMessage::Heartbeat(_)) => {
                &&& next == ClientState::LoggedIn(
                    SubSate { heartbeat_counter: (sub.heartbeat_counter + 1) as u64 },
                )
                &&& reply matches Some(ResponseMessage::Status(StatusMessage::WithoutCode(s)))
                    && s.id == Some(1i32) && s.connection_closed.is_none() && s.connections_available.is_none()
                    && is_mock_connection_id(s.connection_id)
            },
            Some(_) => false,
        },
    }
}

/// Every heartbeat of a logged-in client is counted: after `n` heartbeat steps
/// from a counter `c`, the counter is `c + n`.
pub proof fn law_heartbeats_are_counted(
    states: Seq<ClientState>,
    replies: Seq<Option<ResponseMessage>>,
    heartbeats: Seq<HeartbeatMessage>,
    c: u64,
)
    requires
        states.len() == heartbeats.len() + 1,
        replies.len() == heartbeats.len(),
        states[0] == ClientState::LoggedIn(SubSate { heartbeat_counter: c }),
        c + heartbeats.len() <= u64::MAX,
        forall|i: int|
            0 <= i < heartbeats.len() ==> server_step(
                #[trigger] states[i],
                Some(RequestMessage::Heartbeat(heartbeats[i])),
                states[i + 1],
                replies[i],
            ),
    ensures
        states.last() == ClientState::LoggedIn(
            SubSate { heartbeat_counter: (c + heartbeats.len()) as u64 },
        ),
    decreases heartbeats.len(),
{
    let n: int = heartbeats.len() as int;
    if n > 0 {
        law_heartbeats_are_counted(
            states.drop_last(),
            replies.drop_last(),
            heartbeats.drop_last(),
            c,
        );
        assert(states.drop_last().last() == states[n - 1]);
        assert(server_step(
            states[n - 1],
            Some(RequestMessage::Heartbeat(heartbeats[n - 1])),
            states[n],
            replies[n - 1],
        ));
    }
}

impl ClientState {
    /// Whether the server reads a request from the client in this state.
    pub fn reads_request(&self) -> (r: bool)
        ensures
            r == reads_request(*self),
    {
        match self {
            ClientState::Init(ConnState::Connected) => false,
            _ => true,
        }
    }

    /// One step of the server; see `server_step`.
    pub fn step(self, request: Option<RequestMessage>) -> (r: (ClientState, Option<ResponseMessage>))
        requires
            accepts(self, request),
        ensures
            server_step(self, request, r.0, r.1),
    {
        match self {
            ClientState::Init(ConnState::Connected) => {
                (
                    ClientState::Init(ConnState::WaitingForAuthInfo),
                    Some(
                        ResponseMessage::Connection(
                            ConnectionMessage {
                                id: Some(1),
                                connection_id: Some("conn_id_fake123".to_owned()),
                            },
                        ),
                    ),
                )
            },
            ClientState::Init(ConnState::WaitingForAuthInfo) => match request {
                None => (self, None),
                Some(RequestMessage::Authentication(AuthenticationMessage { id, app_key: _, session: _ })) => {
                    (
                        ClientState::LoggedIn(SubSate { heartbeat_counter: 0 }),
                        Some(
                            ResponseMessage::Status(
                                StatusMessage::Success(
                                    StatusSuccess {
                                        id,
                                        connection_closed: None,
                                        connection_id: Some("conn_id_fake123".to_owned()),
                                        connections_available: Some(42),
                                    },
                                ),
                            ),
                        ),
                    )
                },
                Some(_) => (self, None),
            },
            ClientState::LoggedIn(state) => match request {
                None => (self, None),
                Some(RequestMessage::Heartbeat(_)) => {
                    (
                        ClientState::LoggedIn(
                            SubSate { heartbeat_counter: state.heartbeat_counter + 1 },
                        ),
                        Some(
                            ResponseMessage::Status(
                                StatusMessage::WithoutCode(
                                    StatusSuccess {
                                        id: Some(1),
                                        connection_closed: None,
                                        connection_id: Some("conn_id_fake123".to_owned()),
                                        connections_available: None,
                                    },
                                ),
                            ),
                        ),
                    )
                },
                Some(_) => (self, None),
            },
        }
    }
}

} // verus!
