//! The control-channel handshake: the request the client sends, the response
//! the relay sends back, and what each way the exchange can go means.
use vstd::prelude::*;

verus! {

/// The kind of traffic the tunnel carries.
#[derive(Debug, Clone, Copy, PartialEq, Eq, Structural)]
pub enum Protocol {
    Http,
    Tcp,
}

/// The one request that opens the tunnel.
#[derive(Debug, Clone, PartialEq, Eq)]
pub struct HandshakeRequest {
    /// The public port asked for, or `None` to let the relay choose.
    pub tcp_port: Option<u16>,
    pub protocol: Protocol,
    pub subdomain: String,
}

/// The relay's answer to the handshake request.
#[derive(Debug, Clone, PartialEq, Eq)]
pub struct HandshakeResponse {
    /// The public access point assigned to the tunnel.
    pub access_point: String,
    /// `Some(reason)` where the relay refused the tunnel.
    pub error_message: Option<String>,
}

/// How the handshake exchange went, as its driver saw it.
#[derive(Debug, PartialEq, Eq)]
pub enum HandshakeEvent {
    /// The request could not be written to the control channel.
    SendFailed,
    /// A well-formed response arrived.
    Received(HandshakeResponse),
    /// Bytes arrived that are not a response.
    Malformed,
    /// No response arrived in time.
    TimedOut,
}

/// Why the tunnel could not be opened; each one ends the process.
#[derive(Debug, Clone, PartialEq, Eq)]
pub enum HandshakeError {
    /// The request could not be sent.
    SendFailed,
    /// The relay refused, for this reason.
    Rejected(String),
    /// The response could not be decoded.
    Malformed,
    /// No response arrived in time.
    TimedOut,
    /// The handshake was asked for in a phase where it does not belong.
    OutOfOrder,
}

/// What a handshake that went as `event` yields: the access point, or why
/// there is none.
pub open spec fn handshake_result(event: HandshakeEvent) -> Result<String, HandshakeError> {
    match event {
        HandshakeEvent::SendFailed => Err(HandshakeError::SendFailed),
        HandshakeEvent::Malformed => Err(HandshakeError::Malformed),
        HandshakeEvent::TimedOut => Err(HandshakeError::TimedOut),
        HandshakeEvent::Received(resp) => match resp.error_message {
            Some(reason) => Err(HandshakeError::Rejected(reason)),
            None => Ok(resp.access_point),
        },
    }
}

/// Decides the handshake from how the exchange went: the assigned access
/// point, or the error that ends the process.
pub fn conclude_handshake(event: HandshakeEvent) -> (r: Result<String, HandshakeError>)
    ensures
        r == handshake_result(event),
{
    match event {
        HandshakeEvent::SendFailed => Err(HandshakeError::SendFailed),
        HandshakeEvent::Malformed => Err(HandshakeError::Malformed),
        HandshakeEvent::TimedOut => Err(HandshakeError::TimedOut),
        HandshakeEvent::Received(resp) => match resp.error_message {
            Some(reason) => Err(HandshakeError::Rejected(reason)),
            None => Ok(resp.access_point),
        },
    }
}

} // verus!
