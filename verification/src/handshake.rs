//! Decisions of the stream handshake: which reply lets the handshake go on,
//! and what a refused handshake calls for.
use vstd::prelude::*;

use crate::messages::{AuthenticationMessage, ErrorCode, RequestMessage, ResponseMessage, StatusMessage};

verus! {

/// What a failed handshake calls for.
#[derive(Clone, Copy, Debug, PartialEq, Eq, Structural)]
pub enum HandshakeErr {
    /// Wait, then connect again.
    WaitAndRetry,
    /// Renew the session token, wait, then connect again.
    Reauthenticate,
    /// Give up.
    Fatal,
}

/// What a failure status with error `code` calls for.
pub open spec fn error_action(code: ErrorCode) -> HandshakeErr {
    match code {
        ErrorCode::NoAppKey => HandshakeErr::Fatal,
        ErrorCode::InvalidAppKey => HandshakeErr::Fatal,
        ErrorCode::NoSession => HandshakeErr::Reauthenticate,
        ErrorCode::InvalidSessionInformation => HandshakeErr::Reauthenticate,
        ErrorCode::NotAuthorized => HandshakeErr::Reauthenticate,
        ErrorCode::InvalidInput => HandshakeErr::Fatal,
        ErrorCode::InvalidClock => HandshakeErr::Fatal,
        ErrorCode::UnexpectedError => HandshakeErr::Fatal,
        ErrorCode::Timeout => HandshakeErr::WaitAndRetry,
        ErrorCode::SubscriptionLimitExceeded => HandshakeErr::WaitAndRetry,
        ErrorCode::InvalidRequest => HandshakeErr::Fatal,
        ErrorCode::ConnectionFailed => HandshakeErr::WaitAndRetry,
        ErrorCode::MaxConnectionLimitExceeded => HandshakeErr::Fatal,
        ErrorCode::TooManyRequests => HandshakeErr::WaitAndRetry,
    }
}

/// What a failure status with error `code` calls for.
pub fn action_for_error(code: ErrorCode) -> (r: HandshakeErr)
    ensures
        r == error_action(code),
{
    match code {
        ErrorCode::NoAppKey => HandshakeErr::Fatal,
        ErrorCode::InvalidAppKey => HandshakeErr::Fatal,
        ErrorCode::NoSession => HandshakeErr::Reauthenticate,
        ErrorCode::InvalidSessionInformation => HandshakeErr::Reauthenticate,
        ErrorCode::NotAuthorized => HandshakeErr::Reauthenticate,
        ErrorCode::InvalidInput => HandshakeErr::Fatal,
        ErrorCode::InvalidClock => HandshakeErr::Fatal,
        ErrorCode::UnexpectedError => HandshakeErr::Fatal,
        ErrorCode::Timeout => HandshakeErr::WaitAndRetry,
        ErrorCode::SubscriptionLimitExceeded => HandshakeErr::WaitAndRetry,
        ErrorCode::InvalidRequest => HandshakeErr::Fatal,
        ErrorCode::ConnectionFailed => HandshakeErr::WaitAndRetry,
        ErrorCode::MaxConnectionLimitExceeded => HandshakeErr::Fatal,
        ErrorCode::TooManyRequests => HandshakeErr::WaitAndRetry,
    }
}

/// The first reply of the stream must be a connection message; any other
/// reply calls for a new session.
pub fn check_connection_reply(message: &ResponseMessage) -> (r: Result<(), HandshakeErr>)
    ensures
        r == (match message {
            ResponseMessage::Connection(_) => Ok(()),
            _ => Err(HandshakeErr::Reauthenticate),
        }),
{
    match message {
        ResponseMessage::Connection(_) => Ok(()),
        _ => Err(HandshakeErr::Reauthenticate),
    }
}

/// The reply to the authentication must be a status: a failure calls for what
/// its error code calls for, any other status completes the handshake, and any
/// other reply calls for a retry.
pub fn check_status_reply(message: &ResponseMessage) -> (r: Result<(), HandshakeErr>)
    ensures
        r == (match message {
            ResponseMessage::Status(StatusMessage::Failure(e)) => Err(error_action(e.error_code)),
            ResponseMessage::Status(_) => Ok(()),
            _ => Err(HandshakeErr::WaitAndRetry),
        }),
{
    match message {
        ResponseMessage::Status(StatusMessage::Failure(e)) => Err(action_for_error(e.error_code)),
        ResponseMessage::Status(_) => Ok(()),
        _ => Err(HandshakeErr::WaitAndRetry),
    }
}

/// The authentication request of the handshake.
pub fn authentication_request(session: String, app_key: String) -> (r: RequestMessage)
    ensures
        r == RequestMessage::Authentication(
            AuthenticationMessage { id: Some(-1i32), session, app_key },
        ),
{
    RequestMessage::Authentication(AuthenticationMessage { id: Some(-1), session, app_key })
}

/// Where the client handshake stands.
#[derive(Clone, Copy, Debug, PartialEq, Eq, Structural)]
pub enum HandshakeStage {
    /// Waiting for the connection message.
    AwaitConnection,
    /// The connection message arrived: the authentication request is to be sent.
    SendAuthentication,
    /// Waiting for the status reply to the authentication.
    AwaitStatus,
    /// The handshake succeeded.
    Done,
    /// The handshake failed, and calls for what the error says.
    Failed(HandshakeErr),
}

/// What happened since the last step of the handshake.
#[derive(Debug)]
pub enum HandshakeEvent {
    /// A message was read. `forwarded` tells whether the message processor
    /// produced an output for it and the sink took that output.
    Received { message: ResponseMessage, forwarded: bool },
    /// Reading failed, or the stream ended.
    ReadFailed,
    /// The authentication request was sent.
    Sent,
    /// Sending the authentication request failed.
    SendFailed,
}

/// Whether `stage` waits for `event`: the waiting stages take the outcome of a
/// read, the sending stage the outcome of the send, and a finished handshake
/// takes nothing.
pub open spec fn handshake_expects(stage: HandshakeStage, event: HandshakeEvent) -> bool {
    match stage {
        HandshakeStage::AwaitConnection => event is Received || event is ReadFailed,
        HandshakeStage::AwaitStatus => event is Received || event is ReadFailed,
        HandshakeStage::SendAuthentication => event is Sent || event is SendFailed,
        _ => false,
    }
}

/// The stage that follows `event` in `stage`. A failed read or send calls for
/// a retry; a message that is not forwarded is fatal; otherwise the message is
/// judged by `check_connection_reply` or `check_status_reply`.
pub open spec fn handshake_next(stage: HandshakeStage, event: HandshakeEvent) -> HandshakeStage {
    match (stage, event) {
        (HandshakeStage::AwaitConnection, HandshakeEvent::Received { message, forwarded }) => {
            if !forwarded {
                HandshakeStage::Failed(HandshakeErr::Fatal)
            } else if message is Connection {
                HandshakeStage::SendAuthentication
            } else {
                HandshakeStage::Failed(HandshakeErr::Reauthenticate)
            }
        },
        (HandshakeStage::AwaitStatus, HandshakeEvent::Received { message, forwarded }) => {
            if !forwarded {
                HandshakeStage::Failed(HandshakeErr::Fatal)
            } else {
                match message {
                    ResponseMessage::Status(StatusMessage::Failure(e)) => HandshakeStage::Failed(
                        error_action(e.error_code),
                    ),
                    ResponseMessage::Status(_) => HandshakeStage::Done,
                    _ => HandshakeStage::Failed(HandshakeErr::WaitAndRetry),
                }
            }
        },
        (HandshakeStage::SendAuthentication, HandshakeEvent::Sent) => HandshakeStage::AwaitStatus,
        (_, _) => HandshakeStage::Failed(HandshakeErr::WaitAndRetry),
    }
}

/// One step of the handshake; see `handshake_next`.
pub fn handshake_step(stage: HandshakeStage, event: &HandshakeEvent) -> (r: HandshakeStage)
    requires
        handshake_expects(stage, *event),
    ensures
        r == handshake_next(stage, *event),
{
    match event {
        HandshakeEvent::Received { message, forwarded } => {
            if !*forwarded {
                return HandshakeStage::Failed(HandshakeErr::Fatal);
            }
            let verdict = match stage {
                HandshakeStage::AwaitConnection => check_connection_reply(message),
                _ => check_status_reply(message),
            };
            match verdict {
                Ok(()) => match stage {
                    HandshakeStage::AwaitConnection => HandshakeStage::SendAuthentication,
                    _ => HandshakeStage::Done,
                },
                Err(e) => HandshakeStage::Failed(e),
            }
        },
        HandshakeEvent::Sent => HandshakeStage::AwaitStatus,
        _ => HandshakeStage::Failed(HandshakeErr::WaitAndRetry),
    }
}

/// A handshake succeeds in exactly three steps, and only through a forwarded
/// connection message, a sent authentication request and a forwarded status
/// that is not a failure, each step being one that its stage waits for.
pub proof fn law_handshake_succeeds_only_on_status_without_failure(
    e1: HandshakeEvent,
    e2: HandshakeEvent,
    e3: HandshakeEvent,
)
    requires
        handshake_expects(HandshakeStage::AwaitConnection, e1),
        handshake_expects(handshake_next(HandshakeStage::AwaitConnection, e1), e2),
        handshake_expects(
            handshake_next(handshake_next(HandshakeStage::AwaitConnection, e1), e2),
            e3,
        ),
    ensures
        handshake_next(
            handshake_next(handshake_next(HandshakeStage::AwaitConnection, e1), e2),
            e3,
        ) == HandshakeStage::Done <==> {
            &&& e1 matches HandshakeEvent::Received { message: ResponseMessage::Connection(_), forwarded: true }
            &&& e2 is Sent
            &&& e3 matches HandshakeEvent::Received {
                message: ResponseMessage::Status(st),
                forwarded: true,
            } && !(st is Failure)
        },
{
}

/// A finished handshake, successful or not, takes no further event.
pub proof fn law_finished_handshake_is_final(stage: HandshakeStage, event: HandshakeEvent)
    requires
        stage is Done || stage is Failed,
    ensures
        !handshake_expects(stage, event),
{
}

} // verus!
