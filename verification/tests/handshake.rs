use betfair_stream_api::handshake::{
    action_for_error, authentication_request, check_connection_reply, check_status_reply,
    handshake_step, HandshakeErr, HandshakeEvent, HandshakeStage,
};
use betfair_stream_api::messages::{
    AuthenticationMessage, ConnectionMessage, ErrorCode, RequestMessage, ResponseMessage,
    StatusError, StatusMessage, StatusSuccess,
};

fn failure(code: ErrorCode) -> ResponseMessage {
    ResponseMessage::Status(StatusMessage::Failure(StatusError {
        id: Some(-1),
        error_code: code,
        error_message: "refused".to_string(),
        connection_closed: Some(true),
        connection_id: None,
        connections_available: None,
    }))
}

fn success() -> ResponseMessage {
    ResponseMessage::Status(StatusMessage::Success(StatusSuccess {
        id: Some(-1),
        connection_closed: Some(false),
        connection_id: Some("c".to_string()),
        connections_available: Some(5),
    }))
}

#[test]
fn error_codes_map_to_their_actions() {
    let table = [
        (ErrorCode::NoAppKey, HandshakeErr::Fatal),
        (ErrorCode::InvalidAppKey, HandshakeErr::Fatal),
        (ErrorCode::NoSession, HandshakeErr::Reauthenticate),
        (ErrorCode::InvalidSessionInformation, HandshakeErr::Reauthenticate),
        (ErrorCode::NotAuthorized, HandshakeErr::Reauthenticate),
        (ErrorCode::InvalidInput, HandshakeErr::Fatal),
        (ErrorCode::InvalidClock, HandshakeErr::Fatal),
        (ErrorCode::UnexpectedError, HandshakeErr::Fatal),
        (ErrorCode::Timeout, HandshakeErr::WaitAndRetry),
        (ErrorCode::SubscriptionLimitExceeded, HandshakeErr::WaitAndRetry),
        (ErrorCode::InvalidRequest, HandshakeErr::Fatal),
        (ErrorCode::ConnectionFailed, HandshakeErr::WaitAndRetry),
        (ErrorCode::MaxConnectionLimitExceeded, HandshakeErr::Fatal),
        (ErrorCode::TooManyRequests, HandshakeErr::WaitAndRetry),
    ];
    for (code, action) in table {
        assert_eq!(action_for_error(code), action);
    }
}

#[test]
fn connection_reply_must_be_a_connection() {
    let ok = ResponseMessage::Connection(ConnectionMessage {
        id: Some(1),
        connection_id: Some("abc".to_string()),
    });
    assert_eq!(check_connection_reply(&ok), Ok(()));
    assert_eq!(check_connection_reply(&success()), Err(HandshakeErr::Reauthenticate));
}

#[test]
fn status_reply_success_completes_the_handshake() {
    assert_eq!(check_status_reply(&success()), Ok(()));
}

#[test]
fn status_reply_without_code_completes_the_handshake() {
    let plain = ResponseMessage::Status(StatusMessage::WithoutCode(StatusSuccess {
        id: Some(1),
        connection_closed: None,
        connection_id: None,
        connections_available: None,
    }));
    assert_eq!(check_status_reply(&plain), Ok(()));
    assert_eq!(
        handshake_step(HandshakeStage::AwaitStatus, &HandshakeEvent::Received { message: plain, forwarded: true }),
        HandshakeStage::Done
    );
}

#[test]
fn status_reply_failure_follows_its_code() {
    assert_eq!(check_status_reply(&failure(ErrorCode::NoSession)), Err(HandshakeErr::Reauthenticate));
    assert_eq!(check_status_reply(&failure(ErrorCode::Timeout)), Err(HandshakeErr::WaitAndRetry));
    assert_eq!(check_status_reply(&failure(ErrorCode::InvalidAppKey)), Err(HandshakeErr::Fatal));
}

#[test]
fn status_reply_of_another_kind_calls_for_a_retry() {
    let other = ResponseMessage::Connection(ConnectionMessage { id: None, connection_id: None });
    assert_eq!(check_status_reply(&other), Err(HandshakeErr::WaitAndRetry));
}

#[test]
fn authentication_request_carries_the_credentials() {
    let r = authentication_request("session-token".to_string(), "app-key".to_string());
    assert_eq!(
        r,
        RequestMessage::Authentication(AuthenticationMessage {
            id: Some(-1),
            session: "session-token".to_string(),
            app_key: "app-key".to_string(),
        })
    );
}

fn connection() -> ResponseMessage {
    ResponseMessage::Connection(ConnectionMessage { id: Some(1), connection_id: Some("x".to_string()) })
}

#[test]
fn handshake_steps_through_to_done() {
    let s = HandshakeStage::AwaitConnection;
    let s = handshake_step(s, &HandshakeEvent::Received { message: connection(), forwarded: true });
    assert_eq!(s, HandshakeStage::SendAuthentication);
    let s = handshake_step(s, &HandshakeEvent::Sent);
    assert_eq!(s, HandshakeStage::AwaitStatus);
    let s = handshake_step(s, &HandshakeEvent::Received { message: success(), forwarded: true });
    assert_eq!(s, HandshakeStage::Done);
}

#[test]
fn handshake_fails_on_each_kind_of_trouble() {
    let c = HandshakeStage::AwaitConnection;
    assert_eq!(handshake_step(c, &HandshakeEvent::ReadFailed), HandshakeStage::Failed(HandshakeErr::WaitAndRetry));
    assert_eq!(
        handshake_step(c, &HandshakeEvent::Received { message: connection(), forwarded: false }),
        HandshakeStage::Failed(HandshakeErr::Fatal)
    );
    assert_eq!(
        handshake_step(c, &HandshakeEvent::Received { message: success(), forwarded: true }),
        HandshakeStage::Failed(HandshakeErr::Reauthenticate)
    );
    assert_eq!(
        handshake_step(HandshakeStage::SendAuthentication, &HandshakeEvent::SendFailed),
        HandshakeStage::Failed(HandshakeErr::WaitAndRetry)
    );
    let a = HandshakeStage::AwaitStatus;
    assert_eq!(handshake_step(a, &HandshakeEvent::ReadFailed), HandshakeStage::Failed(HandshakeErr::WaitAndRetry));
    assert_eq!(
        handshake_step(a, &HandshakeEvent::Received { message: success(), forwarded: false }),
        HandshakeStage::Failed(HandshakeErr::Fatal)
    );
    assert_eq!(
        handshake_step(a, &HandshakeEvent::Received { message: failure(ErrorCode::NotAuthorized), forwarded: true }),
        HandshakeStage::Failed(HandshakeErr::Reauthenticate)
    );
    assert_eq!(
        handshake_step(a, &HandshakeEvent::Received { message: connection(), forwarded: true }),
        HandshakeStage::Failed(HandshakeErr::WaitAndRetry)
    );
}
