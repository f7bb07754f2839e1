//! One relay session: for one announced inbound connection, open the local
//! service connection, open an event-data connection to the relay, send the
//! announcement over it so the relay can pair the two, then run both copy
//! directions until each has ended.
use vstd::prelude::*;
use crate::frame::{encode_frame, frame_of, MAX_FRAME_LEN};
use crate::relay::CopyOutcome;

verus! {

/// Where a relay session stands.
#[derive(Debug, Clone, Copy, PartialEq, Eq, Structural)]
pub enum Stage {
    /// Nothing done yet.
    Start,
    /// Waiting for the local service connection.
    ConnectingLocal,
    /// Waiting for the event-data connection.
    ConnectingEvent,
    /// Waiting for the announcement to be sent.
    Announcing,
    /// Both directions are being copied.
    Relaying,
    /// Over, with its report handed out.
    Done,
}

/// What the driver of a session saw happen.
#[derive(Debug, Clone, Copy, PartialEq, Eq, Structural)]
pub enum SessionEvent {
    /// The connection asked for is open.
    Connected,
    /// The connection asked for could not be opened.
    ConnectFailed,
    /// The announcement was sent.
    Sent,
    /// Sending the announcement failed.
    SendFailed,
    /// One direction of the relay ended; `local_to_remote` tells which.
    DirectionEnded { local_to_remote: bool, outcome: CopyOutcome },
}

/// Why a session ended before relaying.
#[derive(Debug, Clone, Copy, PartialEq, Eq, Structural)]
pub enum SessionError {
    /// The local service could not be reached.
    LocalConnect,
    /// The relay's event-data channel could not be reached.
    EventConnect,
    /// The announcement is too long to frame.
    AnnouncementTooLong,
    /// The announcement could not be sent.
    Announce,
}

/// How both directions of a relay ended.
#[derive(Debug, Clone, Copy, PartialEq, Eq, Structural)]
pub struct RelayReport {
    pub local_to_remote: CopyOutcome,
    pub remote_to_local: CopyOutcome,
}

/// What the driver of a session does next.
#[derive(Debug, PartialEq, Eq)]
pub enum SessionAction {
    /// Open a connection to the local service.
    OpenLocal { host: String, port: u16 },
    /// Open an event-data connection to the relay.
    OpenEvent { host: String, port: u16 },
    /// Write these bytes (the framed announcement) to the event-data connection.
    SendAnnouncement(Vec<u8>),
    /// Copy both directions between the two connections, mirrored or not.
    Relay { mirror: bool },
    /// Nothing to do until the next event.
    Wait,
    /// The session is over; report how it went.
    Finish(Result<RelayReport, SessionError>),
}

/// The state of one relay session.
pub struct RelaySession {
    local_host: String,
    local_port: u16,
    remote_host: String,
    event_port: u16,
    announcement: Vec<u8>,
    mirror: bool,
    stage: Stage,
    local_to_remote: Option<CopyOutcome>,
    remote_to_local: Option<CopyOutcome>,
    /// Local service connections asked for so far.
    local_opens: Ghost<nat>,
    /// Event-data connections asked for so far.
    event_opens: Ghost<nat>,
}

/// The model of a relay session.
pub ghost struct SessionView {
    pub local_host: String,
    pub local_port: u16,
    pub remote_host: String,
    pub event_port: u16,
    pub announcement: Seq<u8>,
    pub mirror: bool,
    pub stage: Stage,
    pub local_to_remote: Option<CopyOutcome>,
    pub remote_to_local: Option<CopyOutcome>,
    pub local_opens: nat,
    pub event_opens: nat,
}

impl View for RelaySession {
    type V = SessionView;

    closed spec fn view(&self) -> SessionView {
        SessionView {
            local_host: self.local_host,
            local_port: self.local_port,
            remote_host: self.remote_host,
            event_port: self.event_port,
            announcement: self.announcement@,
            mirror: self.mirror,
            stage: self.stage,
            local_to_remote: self.local_to_remote,
            remote_to_local: self.remote_to_local,
            local_opens: self.local_opens@,
            event_opens: self.event_opens@,
        }
    }
}

/// The session's invariant: it asks for at most one connection of each kind,
/// the local one first, and each stage past a connection has asked for it.
pub open spec fn session_wf(v: SessionView) -> bool {
    &&& v.local_opens <= 1
    &&& v.event_opens <= v.local_opens
    &&& v.stage == Stage::Start ==> v.local_opens == 0
    &&& v.stage == Stage::ConnectingLocal ==> v.local_opens == 1 && v.event_opens == 0
    &&& (v.stage == Stage::ConnectingEvent || v.stage == Stage::Announcing || v.stage
        == Stage::Relaying) ==> v.local_opens == 1 && v.event_opens == 1
    &&& v.stage != Stage::Relaying ==> v.local_to_remote is None && v.remote_to_local is None
}

/// The report of a relay whose directions ended as `a` (local to remote) and `b`.
pub open spec fn report_of(a: CopyOutcome, b: CopyOutcome) -> Result<RelayReport, SessionError> {
    Ok(RelayReport { local_to_remote: a, remote_to_local: b })
}

/// One step of a session: from `s`, on `event`, the session moves to `t` and
/// asks for `r`.
pub open spec fn step_spec(
    s: SessionView,
    event: SessionEvent,
    t: SessionView,
    r: SessionAction,
) -> bool {
    match (s.stage, event) {
        (Stage::ConnectingLocal, SessionEvent::Connected) => r
            == SessionAction::OpenEvent { host: s.remote_host, port: s.event_port }
            && t.stage == Stage::ConnectingEvent && t.event_opens == 1,
        (Stage::ConnectingLocal, SessionEvent::ConnectFailed) => r
            == SessionAction::Finish(Err(SessionError::LocalConnect)) && t.stage
            == Stage::Done && t.event_opens == 0,
        (Stage::ConnectingEvent, SessionEvent::Connected) => if s.announcement.len()
            <= MAX_FRAME_LEN {
            r matches SessionAction::SendAnnouncement(f) && f@ == frame_of(
                s.announcement,
            ) && t.stage == Stage::Announcing && t.event_opens == 1
        } else {
            r == SessionAction::Finish(Err(SessionError::AnnouncementTooLong))
                && t.stage == Stage::Done && t.event_opens == 1
        },
        (Stage::ConnectingEvent, SessionEvent::ConnectFailed) => r
            == SessionAction::Finish(Err(SessionError::EventConnect)) && t.stage
            == Stage::Done && t.event_opens == 1,
        (Stage::Announcing, SessionEvent::Sent) => r == SessionAction::Relay {
            mirror: s.mirror,
        } && t.stage == Stage::Relaying && t.event_opens == 1
            && t.local_to_remote is None && t.remote_to_local is None,
        (Stage::Announcing, SessionEvent::SendFailed) => r == SessionAction::Finish(
            Err(SessionError::Announce),
        ) && t.stage == Stage::Done && t.event_opens == 1,
        (
            Stage::Relaying,
            SessionEvent::DirectionEnded { local_to_remote, outcome },
        ) => {
            let a = if local_to_remote && s.local_to_remote is None {
                Some(outcome)
            } else {
                s.local_to_remote
            };
            let b = if !local_to_remote && s.remote_to_local is None {
                Some(outcome)
            } else {
                s.remote_to_local
            };
            t.event_opens == 1 && if a is Some && b is Some {
                r == SessionAction::Finish(report_of(a->0, b->0)) && t.stage
                    == Stage::Done && t.local_to_remote is None && t.remote_to_local is None
            } else {
                r == SessionAction::Wait && t.stage == Stage::Relaying
                    && t.local_to_remote == a && t.remote_to_local == b
            }
        },
        _ => r == SessionAction::Wait && t == s,
    }
}

impl RelaySession {
    pub open spec fn wf(&self) -> bool {
        session_wf(self@)
    }

    /// A session that has done nothing yet.
    pub fn new(
        local_host: String,
        local_port: u16,
        remote_host: String,
        event_port: u16,
        announcement: Vec<u8>,
        mirror: bool,
    ) -> (r: RelaySession)
        ensures
            r.wf(),
            r@ == (SessionView {
                local_host,
                local_port,
                remote_host,
                event_port,
                announcement: announcement@,
                mirror,
                stage: Stage::Start,
                local_to_remote: None,
                remote_to_local: None,
                local_opens: 0,
                event_opens: 0,
            }),
    {
        RelaySession {
            local_host,
            local_port,
            remote_host,
            event_port,
            announcement,
            mirror,
            stage: Stage::Start,
            local_to_remote: None,
            remote_to_local: None,
            local_opens: Ghost(0),
            event_opens: Ghost(0),
        }
    }

    /// The stage the session is in.
    pub fn stage(&self) -> (r: Stage)
        ensures
            r == self@.stage,
    {
        self.stage
    }

    /// Starts the session: its first action opens the local service
    /// connection. A session already started stays as it was and waits.
    pub fn begin(&mut self) -> (r: SessionAction)
        requires
            old(self).wf(),
        ensures
            final(self).wf(),
            old(self)@.stage == Stage::Start ==> r == (SessionAction::OpenLocal {
                host: old(self)@.local_host,
                port: old(self)@.local_port,
            }) && final(self)@ == (SessionView {
                stage: Stage::ConnectingLocal,
                local_opens: 1,
                ..old(self)@
            }),
            old(self)@.stage != Stage::Start ==> r == SessionAction::Wait && final(self)@ == old(
                self,
            )@,
    {
        if self.stage != Stage::Start {
            return SessionAction::Wait;
        }
        self.stage = Stage::ConnectingLocal;
        self.local_opens = Ghost(1);
        SessionAction::OpenLocal { host: self.local_host.clone(), port: self.local_port }
    }

    /// Takes one event and says what to do next. An event that does not fit
    /// the stage leaves the session as it was and asks for nothing.
    pub fn step(&mut self, event: SessionEvent) -> (r: SessionAction)
        requires
            old(self).wf(),
        ensures
            final(self).wf(),
            final(self)@.local_host == old(self)@.local_host,
            final(self)@.local_port == old(self)@.local_port,
            final(self)@.remote_host == old(self)@.remote_host,
            final(self)@.event_port == old(self)@.event_port,
            final(self)@.announcement == old(self)@.announcement,
            final(self)@.mirror == old(self)@.mirror,
            final(self)@.local_opens == old(self)@.local_opens,
            step_spec(old(self)@, event, final(self)@, r),
    {
        match (self.stage, event) {
            (Stage::ConnectingLocal, SessionEvent::Connected) => {
                self.stage = Stage::ConnectingEvent;
                self.event_opens = Ghost(1);
                SessionAction::OpenEvent { host: self.remote_host.clone(), port: self.event_port }
            },
            (Stage::ConnectingLocal, SessionEvent::ConnectFailed) => {
                self.stage = Stage::Done;
                SessionAction::Finish(Err(SessionError::LocalConnect))
            },
            (Stage::ConnectingEvent, SessionEvent::Connected) => {
                match encode_frame(&self.announcement) {
                    Ok(f) => {
                        self.stage = Stage::Announcing;
                        SessionAction::SendAnnouncement(f)
                    },
                    Err(_) => {
                        self.stage = Stage::Done;
                        SessionAction::Finish(Err(SessionError::AnnouncementTooLong))
                    },
                }
            },
            (Stage::ConnectingEvent, SessionEvent::ConnectFailed) => {
                self.stage = Stage::Done;
                SessionAction::Finish(Err(SessionError::EventConnect))
            },
            (Stage::Announcing, SessionEvent::Sent) => {
                self.stage = Stage::Relaying;
                SessionAction::Relay { mirror: self.mirror }
            },
            (Stage::Announcing, SessionEvent::SendFailed) => {
                self.stage = Stage::Done;
                SessionAction::Finish(Err(SessionError::Announce))
            },
            (Stage::Relaying, SessionEvent::DirectionEnded { local_to_remote, outcome }) => {
                if local_to_remote && self.local_to_remote.is_none() {
                    self.local_to_remote = Some(outcome);
                }
                if !local_to_remote && self.remote_to_local.is_none() {
                    self.remote_to_local = Some(outcome);
                }
                match (self.local_to_remote, self.remote_to_local) {
                    (Some(a), Some(b)) => {
                        self.stage = Stage::Done;
                        self.local_to_remote = None;
                        self.remote_to_local = None;
                        SessionAction::Finish(Ok(RelayReport { local_to_remote: a, remote_to_local: b }))
                    },
                    _ => SessionAction::Wait,
                }
            },
            _ => SessionAction::Wait,
        }
    }
}

/// Every relay session, whatever events it was given, asks for at most one
/// local service connection and at most one event-data connection; one that
/// got as far as relaying asked for exactly one of each.
pub proof fn lemma_one_connection_pair(s: RelaySession)
    requires
        s.wf(),
    ensures
        s@.local_opens <= 1,
        s@.event_opens <= 1,
        s@.stage == Stage::Relaying ==> s@.local_opens == 1 && s@.event_opens == 1,
{
}

} // verus!
