use uniqx::client::{ControlEvent, DispatchError, Phase, UniqxClient, CONSOLE_PORT, DEFAULT_PUBLIC_PORT};
use uniqx::handshake::{
    conclude_handshake, HandshakeError, HandshakeEvent, HandshakeRequest, HandshakeResponse, Protocol,
};

fn client(port: Option<u16>, console: bool) -> UniqxClient {
    UniqxClient::new(
        Protocol::Http,
        3000,
        port,
        "relay.example.com".to_string(),
        "foo".to_string(),
        "localhost".to_string(),
        console,
        5001,
    )
}

fn response(access_point: &str, error: Option<&str>) -> HandshakeEvent {
    HandshakeEvent::Received(HandshakeResponse {
        access_point: access_point.to_string(),
        error_message: error.map(|e| e.to_string()),
    })
}

#[test]
fn handshake_success_goes_online() {
    let mut c = client(None, false);
    assert_eq!(c.phase(), Phase::Connected);
    let req = c.start().unwrap();
    assert_eq!(
        req,
        HandshakeRequest { tcp_port: None, protocol: Protocol::Http, subdomain: "foo".to_string() }
    );
    assert_eq!(c.phase(), Phase::Handshaking);
    let report = c.finish_handshake(response("foo.example.com", None)).unwrap();
    assert_eq!(report.access_point, "foo.example.com");
    assert_eq!(report.public_port, DEFAULT_PUBLIC_PORT);
    assert_eq!(report.public_port, 443);
    assert_eq!(report.local_host, "localhost");
    assert_eq!(report.local_port, 3000);
    assert_eq!(report.protocol, Protocol::Http);
    assert_eq!(report.console_port, None);
    assert_eq!(c.phase(), Phase::Online);
    assert!(c.on_control_event(ControlEvent::Announcement(vec![1, 2, 3])).is_ok());
}

#[test]
fn handshake_reports_fixed_port_and_console() {
    let mut c = client(Some(8080), true);
    let req = c.start().unwrap();
    assert_eq!(req.tcp_port, Some(8080));
    let report = c.finish_handshake(response("tcp.example.com", None)).unwrap();
    assert_eq!(report.public_port, 8080);
    assert_eq!(report.console_port, Some(CONSOLE_PORT));
    assert_eq!(report.console_port, Some(9874));
}

#[test]
fn handshake_failure_stops_before_any_announcement() {
    let mut c = client(None, false);
    c.start().unwrap();
    let r = c.finish_handshake(response("", Some("subdomain taken")));
    assert_eq!(r, Err(HandshakeError::Rejected("subdomain taken".to_string())));
    assert_eq!(c.phase(), Phase::Stopped);
    let d = c.on_control_event(ControlEvent::Announcement(vec![9]));
    assert_eq!(d.err(), Some(DispatchError::NotOnline));
    assert_eq!(c.phase(), Phase::Stopped);
}

#[test]
fn handshake_send_failure_fails_fast() {
    let mut c = client(None, false);
    c.start().unwrap();
    assert_eq!(c.finish_handshake(HandshakeEvent::SendFailed), Err(HandshakeError::SendFailed));
    assert_eq!(c.phase(), Phase::Stopped);
}

#[test]
fn handshake_malformed_and_timed_out_are_distinct() {
    let mut a = client(None, false);
    a.start().unwrap();
    assert_eq!(a.finish_handshake(HandshakeEvent::Malformed), Err(HandshakeError::Malformed));
    let mut b = client(None, false);
    b.start().unwrap();
    assert_eq!(b.finish_handshake(HandshakeEvent::TimedOut), Err(HandshakeError::TimedOut));
    assert_eq!(b.phase(), Phase::Stopped);
}

#[test]
fn handshake_out_of_order() {
    let mut c = client(None, false);
    assert_eq!(c.finish_handshake(HandshakeEvent::TimedOut), Err(HandshakeError::OutOfOrder));
    assert_eq!(c.phase(), Phase::Connected);
    c.start().unwrap();
    assert_eq!(c.start(), Err(HandshakeError::OutOfOrder));
    assert_eq!(c.phase(), Phase::Handshaking);
}

#[test]
fn conclude_handshake_cases() {
    assert_eq!(conclude_handshake(response("a.example.com", None)), Ok("a.example.com".to_string()));
    assert_eq!(
        conclude_handshake(response("a.example.com", Some("no"))),
        Err(HandshakeError::Rejected("no".to_string()))
    );
    assert_eq!(conclude_handshake(HandshakeEvent::SendFailed), Err(HandshakeError::SendFailed));
}

#[test]
fn dispatch_before_handshake_is_refused() {
    let mut c = client(None, false);
    assert_eq!(c.on_control_event(ControlEvent::ReadFailed).err(), Some(DispatchError::NotOnline));
    assert_eq!(c.phase(), Phase::Connected);
}

#[test]
fn lost_control_channel_stops_dispatch() {
    let mut c = client(None, false);
    c.start().unwrap();
    c.finish_handshake(response("foo.example.com", None)).unwrap();
    assert_eq!(
        c.on_control_event(ControlEvent::ReadFailed).err(),
        Some(DispatchError::ControlChannelLost)
    );
    assert_eq!(c.phase(), Phase::Stopped);
    assert_eq!(
        c.on_control_event(ControlEvent::Announcement(vec![1])).err(),
        Some(DispatchError::NotOnline)
    );
}
