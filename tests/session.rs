use uniqx::client::{ControlEvent, Phase, UniqxClient};
use uniqx::frame::{decode_frame, encode_frame, Decoded};
use uniqx::handshake::{HandshakeEvent, HandshakeResponse, Protocol};
use uniqx::relay::CopyOutcome;
use uniqx::session::{RelayReport, RelaySession, SessionAction, SessionError, SessionEvent, Stage};

fn online(console: bool) -> UniqxClient {
    let mut c = UniqxClient::new(
        Protocol::Tcp,
        3000,
        None,
        "relay.example.com".to_string(),
        "foo".to_string(),
        "localhost".to_string(),
        console,
        5001,
    );
    c.start().unwrap();
    c.finish_handshake(HandshakeEvent::Received(HandshakeResponse {
        access_point: "foo.example.com".to_string(),
        error_message: None,
    }))
    .unwrap();
    c
}

fn to_relaying(s: &mut RelaySession) {
    assert!(matches!(s.begin(), SessionAction::OpenLocal { .. }));
    assert!(matches!(s.step(SessionEvent::Connected), SessionAction::OpenEvent { .. }));
    assert!(matches!(s.step(SessionEvent::Connected), SessionAction::SendAnnouncement(_)));
    assert!(matches!(s.step(SessionEvent::Sent), SessionAction::Relay { .. }));
}

#[test]
fn n_announcements_make_n_sessions() {
    let mut c = online(false);
    let mut sessions = Vec::new();
    for i in 0..5u8 {
        sessions.push(c.on_control_event(ControlEvent::Announcement(vec![i, i])).unwrap());
    }
    assert_eq!(sessions.len(), 5);
    assert_eq!(c.phase(), Phase::Online);
    for (i, s) in sessions.iter_mut().enumerate() {
        assert_eq!(s.stage(), Stage::Start);
        let mut local = 0;
        let mut event = 0;
        let mut action = s.begin();
        let mut announced = Vec::new();
        loop {
            let next = match action {
                SessionAction::OpenLocal { host, port } => {
                    assert_eq!((host.as_str(), port), ("localhost", 3000));
                    local += 1;
                    SessionEvent::Connected
                }
                SessionAction::OpenEvent { host, port } => {
                    assert_eq!((host.as_str(), port), ("relay.example.com", 5001));
                    event += 1;
                    SessionEvent::Connected
                }
                SessionAction::SendAnnouncement(f) => {
                    announced = f;
                    SessionEvent::Sent
                }
                SessionAction::Relay { mirror } => {
                    assert!(!mirror);
                    break;
                }
                other => panic!("unexpected {:?}", other),
            };
            action = s.step(next);
        }
        assert_eq!((local, event), (1, 1));
        assert_eq!(announced, vec![0, 0, 0, 2, i as u8, i as u8]);
    }
}

#[test]
fn session_reports_both_directions() {
    let mut c = online(true);
    let mut s = c.on_control_event(ControlEvent::Announcement(vec![7])).unwrap();
    assert!(matches!(s.begin(), SessionAction::OpenLocal { .. }));
    assert_eq!(s.begin(), SessionAction::Wait);
    s.step(SessionEvent::Connected);
    s.step(SessionEvent::Connected);
    assert_eq!(s.step(SessionEvent::Sent), SessionAction::Relay { mirror: true });
    let first = s.step(SessionEvent::DirectionEnded { local_to_remote: false, outcome: CopyOutcome::ReadFailed });
    assert_eq!(first, SessionAction::Wait);
    let last = s.step(SessionEvent::DirectionEnded { local_to_remote: true, outcome: CopyOutcome::Drained });
    assert_eq!(
        last,
        SessionAction::Finish(Ok(RelayReport {
            local_to_remote: CopyOutcome::Drained,
            remote_to_local: CopyOutcome::ReadFailed,
        }))
    );
    assert_eq!(s.stage(), Stage::Done);
    assert_eq!(s.step(SessionEvent::Connected), SessionAction::Wait);
}

#[test]
fn local_connect_failure_is_isolated() {
    let mut c = online(false);
    let mut a = c.on_control_event(ControlEvent::Announcement(vec![1])).unwrap();
    let mut b = c.on_control_event(ControlEvent::Announcement(vec![2])).unwrap();
    to_relaying(&mut b);
    a.begin();
    assert_eq!(a.step(SessionEvent::ConnectFailed), SessionAction::Finish(Err(SessionError::LocalConnect)));
    assert_eq!(a.stage(), Stage::Done);
    assert_eq!(b.stage(), Stage::Relaying);
    assert_eq!(c.phase(), Phase::Online);
    let mut d = c.on_control_event(ControlEvent::Announcement(vec![3])).unwrap();
    assert!(matches!(d.begin(), SessionAction::OpenLocal { .. }));
}

#[test]
fn event_connect_and_announce_failures() {
    let mut c = online(false);
    let mut a = c.on_control_event(ControlEvent::Announcement(vec![1])).unwrap();
    a.begin();
    a.step(SessionEvent::Connected);
    assert_eq!(a.step(SessionEvent::ConnectFailed), SessionAction::Finish(Err(SessionError::EventConnect)));
    let mut b = c.on_control_event(ControlEvent::Announcement(vec![1])).unwrap();
    b.begin();
    b.step(SessionEvent::Connected);
    b.step(SessionEvent::Connected);
    assert_eq!(b.step(SessionEvent::SendFailed), SessionAction::Finish(Err(SessionError::Announce)));
}

#[test]
fn oversized_announcement_is_refused() {
    let mut s = RelaySession::new("localhost".to_string(), 1, "r".to_string(), 2, vec![0u8; 8388609], false);
    s.begin();
    s.step(SessionEvent::Connected);
    assert_eq!(
        s.step(SessionEvent::Connected),
        SessionAction::Finish(Err(SessionError::AnnouncementTooLong))
    );
}

#[test]
fn announcement_frame_decodes_to_payload() {
    let mut c = online(false);
    let mut s = c.on_control_event(ControlEvent::Announcement(b"{\"id\":1}".to_vec())).unwrap();
    s.begin();
    s.step(SessionEvent::Connected);
    match s.step(SessionEvent::Connected) {
        SessionAction::SendAnnouncement(f) => {
            assert_eq!(decode_frame(&f), Decoded::Frame { payload: b"{\"id\":1}".to_vec(), consumed: 12 });
            assert_eq!(Ok(f), encode_frame(&b"{\"id\":1}".to_vec()));
        }
        other => panic!("unexpected {:?}", other),
    }
}
