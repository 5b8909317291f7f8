use betfair_stream_api::handshake::{authentication_request, check_connection_reply, check_status_reply};
use betfair_stream_api::messages::{HeartbeatMessage, RequestMessage, ResponseMessage, StatusMessage};
use betfair_stream_api::mock_server::{ClientState, ConnState, SubSate};

fn heartbeat() -> RequestMessage {
    RequestMessage::Heartbeat(HeartbeatMessage { id: Some(1) })
}

#[test]
fn mock_server_greets_a_new_client_without_reading() {
    let s = ClientState::Init(ConnState::Connected);
    assert!(!s.reads_request());
    let (next, reply) = s.step(None);
    assert_eq!(next, ClientState::Init(ConnState::WaitingForAuthInfo));
    match reply {
        Some(ResponseMessage::Connection(c)) => {
            assert_eq!(c.id, Some(1));
            assert_eq!(c.connection_id.as_deref(), Some("conn_id_fake123"));
        }
        other => panic!("unexpected reply {other:?}"),
    }
}

#[test]
fn mock_server_handshake_logs_the_client_in() {
    let s = ClientState::Init(ConnState::Connected);
    let (s, greeting) = s.step(None);
    assert_eq!(check_connection_reply(&greeting.unwrap()), Ok(()));
    assert!(s.reads_request());
    let auth = authentication_request("token".to_string(), "app_key".to_string());
    let (s, status) = s.step(Some(auth));
    assert_eq!(s, ClientState::LoggedIn(SubSate { heartbeat_counter: 0 }));
    let status = status.unwrap();
    assert_eq!(check_status_reply(&status), Ok(()));
    match status {
        ResponseMessage::Status(StatusMessage::Success(ok)) => {
            assert_eq!(ok.id, Some(-1));
            assert_eq!(ok.connections_available, Some(42));
            assert_eq!(ok.connection_closed, None);
        }
        other => panic!("unexpected reply {other:?}"),
    }
}

#[test]
fn mock_server_counts_heartbeats() {
    let s = ClientState::LoggedIn(SubSate { heartbeat_counter: 0 });
    let (s, r1) = s.step(Some(heartbeat()));
    let (s, r2) = s.step(Some(heartbeat()));
    assert_eq!(s, ClientState::LoggedIn(SubSate { heartbeat_counter: 2 }));
    for r in [r1, r2] {
        match r {
            Some(ResponseMessage::Status(StatusMessage::WithoutCode(ok))) => {
                assert_eq!(ok.id, Some(1));
                assert_eq!(ok.connection_closed, None);
                assert_eq!(ok.connections_available, None);
            }
            other => panic!("unexpected reply {other:?}"),
        }
    }
}

#[test]
fn mock_server_waits_when_nothing_arrives() {
    let waiting = ClientState::Init(ConnState::WaitingForAuthInfo);
    assert_eq!(waiting.step(None), (waiting, None));
    let logged = ClientState::LoggedIn(SubSate { heartbeat_counter: 5 });
    assert_eq!(logged.step(None), (logged, None));
}
