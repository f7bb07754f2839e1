//! The tunnel client: its configuration, fixed once built, and the phases of
//! its control session — the handshake, then the dispatch of every announced
//! inbound connection to a relay session of its own.
use vstd::prelude::*;
use crate::handshake::{conclude_handshake, handshake_result, HandshakeError, HandshakeEvent, HandshakeRequest, Protocol};
use crate::session::{step_spec, RelaySession, SessionAction, SessionError, SessionEvent, SessionView, Stage};

verus! {

/// The public port reported when no fixed one was asked for.
pub const DEFAULT_PUBLIC_PORT: u16 = 443;

/// The local port on which the inspection console listens.
pub const CONSOLE_PORT: u16 = 9874;

/// Where the control session stands.
#[derive(Debug, Clone, Copy, PartialEq, Eq, Structural)]
pub enum Phase {
    /// The control channel is open; the handshake has not begun.
    Connected,
    /// The request is out; the response is awaited.
    Handshaking,
    /// The tunnel is open; announcements are dispatched.
    Online,
    /// The session is over.
    Stopped,
}

/// What a client that has just come online reports.
#[derive(Debug, Clone, PartialEq, Eq)]
pub struct StatusReport {
    pub protocol: Protocol,
    /// The public access point the relay assigned.
    pub access_point: String,
    /// The public port: the one asked for, else `DEFAULT_PUBLIC_PORT`.
    pub public_port: u16,
    pub local_host: String,
    pub local_port: u16,
    /// The console's local port, where the console is enabled.
    pub console_port: Option<u16>,
}

/// What the dispatcher read from the control channel.
#[derive(Debug, PartialEq, Eq)]
pub enum ControlEvent {
    /// An announcement of one inbound connection: its payload, as received.
    Announcement(Vec<u8>),
    /// Reading from the control channel failed.
    ReadFailed,
}

/// Why the dispatcher yields no relay session.
#[derive(Debug, Clone, Copy, PartialEq, Eq, Structural)]
pub enum DispatchError {
    /// The control channel is lost; there is no reconnecting.
    ControlChannelLost,
    /// The client is not online.
    NotOnline,
}

/// A tunnel client.
pub struct UniqxClient {
    protocol: Protocol,
    local_port: u16,
    port: Option<u16>,
    remote_host: String,
    subdomain: String,
    local_host: String,
    console: bool,
    event_port: u16,
    phase: Phase,
    /// The announcements dispatched so far, one relay session each.
    dispatched: Ghost<Seq<Seq<u8>>>,
}

/// The model of a client.
pub ghost struct ClientView {
    pub protocol: Protocol,
    pub local_port: u16,
    pub port: Option<u16>,
    pub remote_host: String,
    pub subdomain: String,
    pub local_host: String,
    pub console: bool,
    pub event_port: u16,
    pub phase: Phase,
    pub dispatched: Seq<Seq<u8>>,
}

impl View for UniqxClient {
    type V = ClientView;

    closed spec fn view(&self) -> ClientView {
        ClientView {
            protocol: self.protocol,
            local_port: self.local_port,
            port: self.port,
            remote_host: self.remote_host,
            subdomain: self.subdomain,
            local_host: self.local_host,
            console: self.console,
            event_port: self.event_port,
            phase: self.phase,
            dispatched: self.dispatched@,
        }
    }
}

/// The status that client `c` reports once given `access_point`.
pub open spec fn status_of(c: ClientView, access_point: String) -> StatusReport {
    StatusReport {
        protocol: c.protocol,
        access_point,
        public_port: match c.port {
            Some(p) => p,
            None => DEFAULT_PUBLIC_PORT,
        },
        local_host: c.local_host,
        local_port: c.local_port,
        console_port: if c.console {
            Some(CONSOLE_PORT)
        } else {
            None
        },
    }
}

/// The fresh relay session that client `c` makes for announcement `a`.
pub open spec fn session_for(c: ClientView, a: Seq<u8>) -> SessionView {
    SessionView {
        local_host: c.local_host,
        local_port: c.local_port,
        remote_host: c.remote_host,
        event_port: c.event_port,
        announcement: a,
        mirror: c.console,
        stage: Stage::Start,
        local_to_remote: None,
        remote_to_local: None,
        local_opens: 0,
        event_opens: 0,
    }
}

/// The handshake's end: from `s`, the exchange going as `event` moves the
/// client to `t` and yields `r`.
pub open spec fn handshake_step(
    s: ClientView,
    event: HandshakeEvent,
    t: ClientView,
    r: Result<StatusReport, HandshakeError>,
) -> bool {
    if s.phase != Phase::Handshaking {
        r == Err::<StatusReport, HandshakeError>(HandshakeError::OutOfOrder) && t == s
    } else {
        match handshake_result(event) {
            Ok(ap) => r == Ok::<StatusReport, HandshakeError>(status_of(s, ap)) && t == (ClientView {
                phase: Phase::Online,
                ..s
            }),
            Err(e) => r == Err::<StatusReport, HandshakeError>(e) && t == (ClientView {
                phase: Phase::Stopped,
                ..s
            }),
        }
    }
}

/// One dispatch: from `s`, reading `event` moves the client to `t` and
/// yields `r`.
pub open spec fn control_step(
    s: ClientView,
    event: ControlEvent,
    t: ClientView,
    r: Result<RelaySession, DispatchError>,
) -> bool {
    if s.phase != Phase::Online {
        r matches Err(e) && e == DispatchError::NotOnline && t == s
    } else {
        match event {
            ControlEvent::Announcement(a) => r matches Ok(sess) && sess.wf() && sess@ == session_for(
                s,
                a@,
            ) && t == (ClientView { dispatched: s.dispatched.push(a@), ..s }),
            ControlEvent::ReadFailed => r matches Err(e) && e == DispatchError::ControlChannelLost
                && t == (ClientView { phase: Phase::Stopped, ..s }),
        }
    }
}

/// A refused handshake stops the client: the relay's reason is handed out, and
/// nothing read from the control channel afterwards is dispatched.
pub proof fn lemma_rejection_stops(
    s: ClientView,
    resp: crate::handshake::HandshakeResponse,
    t: ClientView,
    r: Result<StatusReport, HandshakeError>,
    event: ControlEvent,
    u: ClientView,
    d: Result<RelaySession, DispatchError>,
)
    requires
        s.phase == Phase::Handshaking,
        resp.error_message is Some,
        handshake_step(s, HandshakeEvent::Received(resp), t, r),
        control_step(t, event, u, d),
    ensures
        r == Err::<StatusReport, HandshakeError>(
            HandshakeError::Rejected(resp.error_message->0),
        ),
        t.phase == Phase::Stopped,
        d matches Err(e) && e == DispatchError::NotOnline,
        u == t,
{
}

/// The announcements `anns[0..k]`, as byte sequences.
pub open spec fn payloads(anns: Seq<Vec<u8>>, k: int) -> Seq<Seq<u8>> {
    anns.subrange(0, k).map_values(|a: Vec<u8>| a@)
}

proof fn lemma_dispatch_prefix(
    states: Seq<ClientView>,
    anns: Seq<Vec<u8>>,
    results: Seq<Result<RelaySession, DispatchError>>,
    k: int,
)
    requires
        states.len() == anns.len() + 1,
        results.len() == anns.len(),
        states[0].phase == Phase::Online,
        forall|i: int|
            0 <= i < anns.len() ==> #[trigger] control_step(
                states[i],
                ControlEvent::Announcement(anns[i]),
                states[i + 1],
                results[i],
            ),
        0 <= k <= anns.len(),
    ensures
        states[k] == (ClientView {
            dispatched: states[0].dispatched + payloads(anns, k),
            ..states[0]
        }),
    decreases k,
{
    if k == 0 {
        assert(payloads(anns, 0) =~= Seq::<Seq<u8>>::empty());
        assert(states[0].dispatched + payloads(anns, 0) =~= states[0].dispatched);
    } else {
        lemma_dispatch_prefix(states, anns, results, k - 1);
        assert(control_step(
            states[k - 1],
            ControlEvent::Announcement(anns[k - 1]),
            states[k],
            results[k - 1],
        ));
        assert(payloads(anns, k) =~= payloads(anns, k - 1).push(anns[k - 1]@));
        assert(states[0].dispatched + payloads(anns, k) =~= (states[0].dispatched + payloads(
            anns,
            k - 1,
        )).push(anns[k - 1]@));
    }
}

/// Announcements delivered one after another to an online client yield
/// exactly one relay session each: the client stays online, has dispatched
/// exactly those announcements in order, and the session made for each is a
/// fresh one for that announcement, which will ask for one local service
/// connection and one event-data connection at most.
pub proof fn lemma_announcements_in(
    states: Seq<ClientView>,
    anns: Seq<Vec<u8>>,
    results: Seq<Result<RelaySession, DispatchError>>,
)
    requires
        states.len() == anns.len() + 1,
        results.len() == anns.len(),
        states[0].phase == Phase::Online,
        forall|i: int|
            0 <= i < anns.len() ==> #[trigger] control_step(
                states[i],
                ControlEvent::Announcement(anns[i]),
                states[i + 1],
                results[i],
            ),
    ensures
        states.last().phase == Phase::Online,
        states.last().dispatched == states[0].dispatched + payloads(anns, anns.len() as int),
        forall|i: int|
            0 <= i < anns.len() ==> (#[trigger] results[i] matches Ok(sess) && sess.wf() && sess@
                == session_for(states[0], anns[i]@)),
{
    lemma_dispatch_prefix(states, anns, results, anns.len() as int);
    assert forall|i: int| 0 <= i < anns.len() implies (#[trigger] results[i] matches Ok(sess)
        && sess.wf() && sess@ == session_for(states[0], anns[i]@)) by {
        lemma_dispatch_prefix(states, anns, results, i);
        assert(control_step(
            states[i],
            ControlEvent::Announcement(anns[i]),
            states[i + 1],
            results[i],
        ));
    }
}

/// A local service that cannot be reached ends only the session that tried
/// it: that session finishes with `LocalConnect`, while the client, which the
/// session does not share, stays online and makes a fresh session for the
/// next announcement.
pub proof fn lemma_session_isolation(
    s: SessionView,
    t: SessionView,
    r: SessionAction,
    c: ClientView,
    next: Vec<u8>,
    c2: ClientView,
    d: Result<RelaySession, DispatchError>,
)
    requires
        s.stage == Stage::ConnectingLocal,
        step_spec(s, SessionEvent::ConnectFailed, t, r),
        c.phase == Phase::Online,
        control_step(c, ControlEvent::Announcement(next), c2, d),
    ensures
        r == SessionAction::Finish(Err(SessionError::LocalConnect)),
        t.stage == Stage::Done,
        c2.phase == Phase::Online,
        d matches Ok(sess) && sess@ == session_for(c, next@),
{
}

impl UniqxClient {
    /// A client over an open control channel, configured once and for all.
    pub fn new(
        protocol: Protocol,
        local_port: u16,
        port: Option<u16>,
        remote_host: String,
        subdomain: String,
        local_host: String,
        console: bool,
        event_port: u16,
    ) -> (r: UniqxClient)
        ensures
            r@ == (ClientView {
                protocol,
                local_port,
                port,
                remote_host,
                subdomain,
                local_host,
                console,
                event_port,
                phase: Phase::Connected,
                dispatched: Seq::empty(),
            }),
    {
        UniqxClient {
            protocol,
            local_port,
            port,
            remote_host,
            subdomain,
            local_host,
            console,
            event_port,
            phase: Phase::Connected,
            dispatched: Ghost(Seq::empty()),
        }
    }

    /// The phase the client is in.
    pub fn phase(&self) -> (r: Phase)
        ensures
            r == self@.phase,
    {
        self.phase
    }

    /// Begins the handshake: the request to send, once. A client past that
    /// point stays as it was.
    pub fn start(&mut self) -> (r: Result<HandshakeRequest, HandshakeError>)
        ensures
            old(self)@.phase == Phase::Connected ==> r == Ok::<HandshakeRequest, HandshakeError>(
                HandshakeRequest {
                    tcp_port: old(self)@.port,
                    protocol: old(self)@.protocol,
                    subdomain: old(self)@.subdomain,
                },
            ) && final(self)@ == (ClientView { phase: Phase::Handshaking, ..old(self)@ }),
            old(self)@.phase != Phase::Connected ==> r == Err::<HandshakeRequest, HandshakeError>(
                HandshakeError::OutOfOrder,
            ) && final(self)@ == old(self)@,
    {
        if self.phase != Phase::Connected {
            return Err(HandshakeError::OutOfOrder);
        }
        self.phase = Phase::Handshaking;
        Ok(
            HandshakeRequest {
                tcp_port: self.port,
                protocol: self.protocol,
                subdomain: self.subdomain.clone(),
            },
        )
    }

    /// Ends the handshake: online with the status to report, or stopped with
    /// the error that ends the process.
    pub fn finish_handshake(&mut self, event: HandshakeEvent) -> (r: Result<
        StatusReport,
        HandshakeError,
    >)
        ensures
            handshake_step(old(self)@, event, final(self)@, r),
    {
        if self.phase != Phase::Handshaking {
            return Err(HandshakeError::OutOfOrder);
        }
        match conclude_handshake(event) {
            Ok(access_point) => {
                self.phase = Phase::Online;
                Ok(
                    StatusReport {
                        protocol: self.protocol,
                        access_point,
                        public_port: match self.port {
                            Some(p) => p,
                            None => DEFAULT_PUBLIC_PORT,
                        },
                        local_host: self.local_host.clone(),
                        local_port: self.local_port,
                        console_port: if self.console {
                            Some(CONSOLE_PORT)
                        } else {
                            None
                        },
                    },
                )
            },
            Err(e) => {
                self.phase = Phase::Stopped;
                Err(e)
            },
        }
    }

    /// The relay session for one announced inbound connection.
    pub fn handle_request(&self, announcement: Vec<u8>) -> (r: RelaySession)
        ensures
            r.wf(),
            r@ == session_for(self@, announcement@),
    {
        RelaySession::new(
            self.local_host.clone(),
            self.local_port,
            self.remote_host.clone(),
            self.event_port,
            announcement,
            self.console,
        )
    }

    /// Dispatches what was read from the control channel: a fresh relay
    /// session for an announcement, or the end of the session when the channel
    /// is lost.
    pub fn on_control_event(&mut self, event: ControlEvent) -> (r: Result<
        RelaySession,
        DispatchError,
    >)
        ensures
            control_step(old(self)@, event, final(self)@, r),
    {
        if self.phase != Phase::Online {
            return Err(DispatchError::NotOnline);
        }
        match event {
            ControlEvent::Announcement(a) => {
                let ghost ga = a@;
                let session = self.handle_request(a);
                self.dispatched = Ghost(self.dispatched@.push(ga));
                Ok(session)
            },
            ControlEvent::ReadFailed => {
                self.phase = Phase::Stopped;
                Err(DispatchError::ControlChannelLost)
            },
        }
    }
}

} // verus!
