//! The host's side of the control channel: the listener's state machine
//! (idle, listening, a request awaiting the operator, an active session),
//! the messages of the handshake, and the pacing of a live session.
//! Sockets, channels and clocks belong to the caller, which reports what
//! happened and performs what is decided here.
use vstd::prelude::*;

use crate::capture::CaptureSourceInfo;
use crate::metrics::elapsed_ms;
use crate::text::{parse_port, parsed_u16, trimmed};
use crate::protocol::{DisconnectMessage, Heartbeat, HeartbeatAck, SessionAccept, SessionReject, SessionRequest};
use crate::session::{DisconnectReason, HostSessionManager, HostStatus, RemoteSession};

verus! {

/// The operator's answer to a pending request, or a request to end the
/// active session.
#[derive(Debug, Clone, Copy, PartialEq, Eq, Structural)]
pub enum UserAction {
    Accept,
    Reject,
    Disconnect,
}

/// Default TCP control port.
pub const DEFAULT_CONTROL_PORT: u16 = 8443;

/// Default UDP video port.
pub const DEFAULT_VIDEO_PORT: u16 = 8444;

/// Largest payload of the first (request) frame of a handshake.
pub const HANDSHAKE_MAX_PAYLOAD: u64 = 5000;

/// Largest payload of a frame during a live session.
pub const LIVE_MAX_PAYLOAD: u64 = 50000;

/// Time without a heartbeat or any other frame from the viewer after which
/// a live session is given up.
pub const HEARTBEAT_TIMEOUT_MS: u64 = 4000;

/// Interval between two metrics reports to the viewer.
pub const METRICS_INTERVAL_MS: u64 = 1000;

/// The listener's state: its status, the request awaiting the operator, the
/// active session, and the session the session manager authorises input for.
pub struct HostState {
    pub status: HostStatus,
    pub request: Option<SessionRequest>,
    pub session: Option<RemoteSession>,
    pub authorized: Option<RemoteSession>,
}

/// What happens to the listener.
pub enum HostEvent {
    /// The operator started the listener.
    ListenStarted,
    /// The listener could not bind its port.
    ListenFailed,
    /// A viewer's session request arrived.
    RequestReceived(SessionRequest),
    /// The viewer went away while its request was pending.
    ViewerLeftPending,
    /// A handshake ended in an error.
    HandshakeFailed,
    /// The operator accepted and the acceptance was sent.
    Accepted(RemoteSession),
    /// The operator rejected the request.
    Rejected,
    /// The live session ended.
    SessionFinished,
    /// The operator stopped the listener.
    Stopped,
}

/// The listener's next state.
pub open spec fn host_next(s: HostState, e: HostEvent) -> HostState {
    match e {
        HostEvent::ListenStarted => HostState { status: HostStatus::Listening, request: s.request, session: s.session, authorized: s.authorized },
        HostEvent::ListenFailed => HostState { status: HostStatus::Error, request: s.request, session: s.session, authorized: s.authorized },
        HostEvent::RequestReceived(r) => HostState { status: HostStatus::Connecting, request: Some(r), session: s.session, authorized: s.authorized },
        HostEvent::ViewerLeftPending => HostState { status: s.status, request: None, session: s.session, authorized: s.authorized },
        HostEvent::HandshakeFailed => HostState { status: HostStatus::Listening, request: s.request, session: s.session, authorized: s.authorized },
        HostEvent::Accepted(x) => HostState { status: HostStatus::Occupied, request: None, session: Some(x), authorized: Some(x) },
        HostEvent::Rejected => HostState { status: HostStatus::Listening, request: None, session: s.session, authorized: s.authorized },
        HostEvent::SessionFinished => HostState { status: HostStatus::Listening, request: s.request, session: None, authorized: None },
        HostEvent::Stopped => HostState { status: HostStatus::Idle, request: None, session: None, authorized: None },
    }
}

/// What each event does to the listener. Stopping clears everything: the
/// listener is idle with no pending request, no active session and input
/// authorised for nobody. Accepting makes the accepted session the active
/// and authorised one and clears the request; rejecting or the viewer
/// leaving clears the request and keeps any session; a finished session
/// leaves nothing authorised; a request received is the one pending.
pub proof fn lemma_host_event_outcomes(s: HostState, req: SessionRequest, x: RemoteSession)
    ensures
        ({
            let t = host_next(s, HostEvent::Stopped);
            t.status == HostStatus::Idle && t.request is None && t.session is None && t.authorized is None
        }),
        ({
            let t = host_next(s, HostEvent::Accepted(x));
            t.status == HostStatus::Occupied && t.request is None && t.session == Some(x) && t.authorized == Some(x)
        }),
        ({
            let t = host_next(s, HostEvent::Rejected);
            t.status == HostStatus::Listening && t.request is None && t.session == s.session
                && t.authorized == s.authorized
        }),
        ({
            let t = host_next(s, HostEvent::ViewerLeftPending);
            t.status == s.status && t.request is None && t.session == s.session && t.authorized == s.authorized
        }),
        ({
            let t = host_next(s, HostEvent::SessionFinished);
            t.status == HostStatus::Listening && t.request == s.request && t.session is None && t.authorized is None
        }),
        ({
            let t = host_next(s, HostEvent::RequestReceived(req));
            t.status == HostStatus::Connecting && t.request == Some(req) && t.session == s.session
                && t.authorized == s.authorized
        }),
        ({
            let t = host_next(s, HostEvent::ListenStarted);
            t.status == HostStatus::Listening && t.request == s.request && t.session == s.session
                && t.authorized == s.authorized
        }),
        ({
            let t = host_next(s, HostEvent::ListenFailed);
            t.status == HostStatus::Error && t.request == s.request && t.session == s.session
                && t.authorized == s.authorized
        }),
        ({
            let t = host_next(s, HostEvent::HandshakeFailed);
            t.status == HostStatus::Listening && t.request == s.request && t.session == s.session
                && t.authorized == s.authorized
        }),
{
}

/// The states in which each event can occur when the host runs as designed:
/// the listener is started from idle or after an error, a request arrives
/// while listening, the operator answers a pending request, and a session
/// finishes while the host is occupied.
pub open spec fn host_event_expected(s: HostState, e: HostEvent) -> bool {
    match e {
        HostEvent::ListenStarted => s.status == HostStatus::Idle || s.status == HostStatus::Error,
        HostEvent::ListenFailed => s.status == HostStatus::Listening,
        HostEvent::RequestReceived(_) => s.status == HostStatus::Listening,
        HostEvent::ViewerLeftPending => s.status == HostStatus::Connecting,
        HostEvent::HandshakeFailed => s.status == HostStatus::Listening || s.status == HostStatus::Connecting,
        HostEvent::Accepted(_) => s.status == HostStatus::Connecting,
        HostEvent::Rejected => s.status == HostStatus::Connecting,
        HostEvent::SessionFinished => s.status == HostStatus::Occupied,
        HostEvent::Stopped => true,
    }
}

/// The host is occupied exactly while it has an active session, and input
/// is authorised for exactly that session.
pub open spec fn host_consistent(s: HostState) -> bool {
    &&& (s.status == HostStatus::Occupied) == (s.session is Some)
    &&& s.authorized == s.session
}

/// The host's status follows its session: from any consistent state, every
/// event in a state where it can occur leads to a consistent state, so the
/// host shows `Occupied` exactly while a session is active and injects input
/// for that session alone.
pub proof fn lemma_host_stays_consistent(s: HostState, e: HostEvent)
    requires
        host_consistent(s),
        host_event_expected(s, e),
    ensures
        host_consistent(host_next(s, e)),
{
}

/// Control is granted only with the operator's consent: the only event that
/// makes a session active, or authorises input for one, is the acceptance of
/// a request.
pub proof fn lemma_session_only_by_acceptance(s: HostState, e: HostEvent)
    ensures
        s.session is None && host_next(s, e).session is Some ==> e is Accepted,
        s.authorized is None && host_next(s, e).authorized is Some ==> e is Accepted,
{
}

/// Whether `s` is the session the host records when it accepts `req` from
/// `viewer_ip`, with `host_ip` its own address, at `now_us`.
pub open spec fn is_accepted_session(
    s: RemoteSession,
    req: SessionRequest,
    viewer_ip: Seq<char>,
    host_ip: Seq<char>,
    now_us: i64,
) -> bool {
    &&& s.session_id@ == req.session_id@
    &&& s.viewer_id@ == req.viewer_name@
    &&& s.host_id@ == "ARC-HOST-7890"@
    &&& s.viewer_ip@ == viewer_ip
    &&& s.host_ip@ == host_ip
    &&& s.start_time == now_us
    &&& s.protocol_version@ == "1.0"@
    &&& s.allow_control
}

/// The session record and the acceptance message for accepting `req` from
/// `viewer_ip` at `now_us`; `host_ip` is the host's own address.
pub fn build_acceptance(req: &SessionRequest, viewer_ip: String, host_ip: String, now_us: i64) -> (r: (
    RemoteSession,
    SessionAccept,
))
    ensures
        is_accepted_session(r.0, *req, viewer_ip@, host_ip@, now_us),
        r.1.session_id@ == req.session_id@,
        r.1.host_name@ == "WORKSTATION-WIN11-PRO"@,
        r.1.accepted_time == now_us,
        r.1.control_port == DEFAULT_CONTROL_PORT,
        r.1.video_port == DEFAULT_VIDEO_PORT,
{
    let session = RemoteSession {
        session_id: req.session_id.clone(),
        viewer_id: req.viewer_name.clone(),
        host_id: String::from_str("ARC-HOST-7890"),
        viewer_ip,
        host_ip,
        start_time: now_us,
        protocol_version: String::from_str("1.0"),
        allow_control: true,
    };
    let accept = SessionAccept {
        session_id: req.session_id.clone(),
        host_name: String::from_str("WORKSTATION-WIN11-PRO"),
        accepted_time: now_us,
        control_port: DEFAULT_CONTROL_PORT,
        video_port: DEFAULT_VIDEO_PORT,
    };
    (session, accept)
}

/// The rejection message for `req`.
pub fn build_rejection(req: &SessionRequest) -> (r: SessionReject)
    ensures
        r.session_id@ == req.session_id@,
        r.reason@ == "Handshake request rejected by Host user."@,
{
    SessionReject {
        session_id: req.session_id.clone(),
        reason: String::from_str("Handshake request rejected by Host user."),
    }
}

/// What the host sends in answer to a session request once its operator
/// has chosen: the session and its acceptance, or a rejection.
pub enum HandshakeReply {
    Accept(RemoteSession, SessionAccept),
    Reject(SessionReject),
}

/// The answer to `req` for the operator's `choice`. Accepting builds the
/// session record and the acceptance as `build_acceptance` does; rejecting,
/// and a disconnect pressed while the request waits, build the rejection.
pub fn handshake_reply(choice: UserAction, req: &SessionRequest, viewer_ip: String, host_ip: String, now_us: i64) -> (r: HandshakeReply)
    ensures
        choice == UserAction::Accept ==> (r matches HandshakeReply::Accept(s, a) && {
            &&& is_accepted_session(s, *req, viewer_ip@, host_ip@, now_us)
            &&& a.session_id@ == req.session_id@
            &&& a.host_name@ == "WORKSTATION-WIN11-PRO"@
            &&& a.accepted_time == now_us
            &&& a.control_port == DEFAULT_CONTROL_PORT
            &&& a.video_port == DEFAULT_VIDEO_PORT
        }),
        choice != UserAction::Accept ==> (r matches HandshakeReply::Reject(j) && j.session_id@ == req.session_id@
            && j.reason@ == "Handshake request rejected by Host user."@),
{
    match choice {
        UserAction::Accept => {
            let (session, accept) = build_acceptance(req, viewer_ip, host_ip, now_us);
            HandshakeReply::Accept(session, accept)
        },
        UserAction::Reject | UserAction::Disconnect => HandshakeReply::Reject(build_rejection(req)),
    }
}

/// The host's listener state, its address and its control port.
pub struct NetworkManager {
    local_ip: String,
    port: u16,
    status: HostStatus,
    active_request: Option<SessionRequest>,
    active_session: Option<RemoteSession>,
    session_mgr: HostSessionManager,
}

impl NetworkManager {
    /// The listener's state.
    pub closed spec fn state(&self) -> HostState {
        HostState {
            status: self.status,
            request: self.active_request,
            session: self.active_session,
            authorized: self.session_mgr.active(),
        }
    }

    /// The host's address.
    pub closed spec fn address(&self) -> Seq<char> {
        self.local_ip@
    }

    /// The control port the listener binds.
    pub closed spec fn control_port(&self) -> u16 {
        self.port
    }

    /// An idle listener on the default port, with the session manager
    /// `session_mgr`; `local_ip` is the host's address.
    pub fn new(local_ip: String, session_mgr: HostSessionManager) -> (r: Self)
        ensures
            r.state() == (HostState {
                status: HostStatus::Idle,
                request: None,
                session: None,
                authorized: session_mgr.active(),
            }),
            r.address() == local_ip@,
            r.control_port() == DEFAULT_CONTROL_PORT,
    {
        NetworkManager {
            local_ip,
            port: DEFAULT_CONTROL_PORT,
            status: HostStatus::Idle,
            active_request: None,
            active_session: None,
            session_mgr,
        }
    }

    pub fn local_ip(&self) -> (r: String)
        ensures
            r@ == self.address(),
    {
        self.local_ip.clone()
    }

    pub fn port(&self) -> (r: u16)
        ensures
            r == self.control_port(),
    {
        self.port
    }

    pub fn set_port(&mut self, port: u16)
        ensures
            final(self).control_port() == port,
            final(self).state() == old(self).state(),
            final(self).address() == old(self).address(),
    {
        self.port = port;
    }

    pub fn get_status(&self) -> (r: HostStatus)
        ensures
            r == self.state().status,
    {
        self.status
    }

    pub fn get_active_request(&self) -> (r: Option<SessionRequest>)
        ensures
            r == self.state().request,
    {
        match &self.active_request {
            Some(req) => Some(req.clone()),
            None => None,
        }
    }

    pub fn get_active_session(&self) -> (r: Option<RemoteSession>)
        ensures
            r == self.state().session,
    {
        match &self.active_session {
            Some(s) => Some(s.clone()),
            None => None,
        }
    }

    /// Whether input from `viewer_ip` under `session_id` may be injected.
    pub fn is_input_authorized(&self, session_id: &str, viewer_ip: &str) -> (r: bool)
        ensures
            r == (self.state().authorized matches Some(s) && crate::session::grants_control(
                s,
                session_id@,
                viewer_ip@,
            )),
    {
        self.session_mgr.is_session_authorized(session_id, viewer_ip)
    }

    /// Whether the session manager holds a session, that is, whether a live
    /// session is running.
    pub fn session_active(&self) -> (r: bool)
        ensures
            r == self.state().authorized is Some,
    {
        self.session_mgr.get_active_session().is_some()
    }

    /// The listener starts; the caller binds the port and serves it.
    pub fn start_listening(&mut self) -> (r: Result<(), String>)
        ensures
            final(self).state().status == HostStatus::Listening,
            final(self).state().request == old(self).state().request && final(self).state().session == old(self).state().session && final(self).state().authorized == old(self).state().authorized,
            r is Ok,
            final(self).state() == host_next(old(self).state(), HostEvent::ListenStarted),
            final(self).address() == old(self).address(),
            final(self).control_port() == old(self).control_port(),
    {
        self.status = HostStatus::Listening;
        Ok(())
    }

    /// The port could not be bound.
    pub fn on_listen_failed(&mut self)
        ensures
            final(self).state().status == HostStatus::Error,
            final(self).state().request == old(self).state().request && final(self).state().session == old(self).state().session && final(self).state().authorized == old(self).state().authorized,
            final(self).state() == host_next(old(self).state(), HostEvent::ListenFailed),
            final(self).address() == old(self).address(),
            final(self).control_port() == old(self).control_port(),
    {
        self.status = HostStatus::Error;
    }

    /// A session request arrived; it waits for the operator.
    pub fn on_session_request(&mut self, req: SessionRequest)
        ensures
            final(self).state().status == HostStatus::Connecting,
            final(self).state().request == Some(req),
            final(self).state().session == old(self).state().session && final(self).state().authorized == old(self).state().authorized,
            final(self).state() == host_next(old(self).state(), HostEvent::RequestReceived(req)),
            final(self).address() == old(self).address(),
            final(self).control_port() == old(self).control_port(),
    {
        self.status = HostStatus::Connecting;
        self.active_request = Some(req);
    }

    /// The viewer disconnected while its request was pending.
    pub fn on_viewer_left_pending(&mut self)
        ensures
            final(self).state().request is None,
            final(self).state().status == old(self).state().status && final(self).state().session == old(self).state().session && final(self).state().authorized == old(self).state().authorized,
            final(self).state() == host_next(old(self).state(), HostEvent::ViewerLeftPending),
            final(self).address() == old(self).address(),
            final(self).control_port() == old(self).control_port(),
    {
        self.active_request = None;
    }

    /// A handshake failed; the listener goes on listening.
    pub fn on_handshake_failed(&mut self)
        ensures
            final(self).state().status == HostStatus::Listening,
            final(self).state().request == old(self).state().request && final(self).state().session == old(self).state().session && final(self).state().authorized == old(self).state().authorized,
            final(self).state() == host_next(old(self).state(), HostEvent::HandshakeFailed),
            final(self).address() == old(self).address(),
            final(self).control_port() == old(self).control_port(),
    {
        self.status = HostStatus::Listening;
    }

    /// The acceptance was sent: `session` becomes the active session and
    /// input is authorised for it.
    pub fn on_session_accepted(&mut self, session: RemoteSession)
        ensures
            final(self).state().status == HostStatus::Occupied,
            final(self).state().request is None,
            final(self).state().session == Some(session) && final(self).state().authorized == Some(session),
            final(self).state() == host_next(old(self).state(), HostEvent::Accepted(session)),
            final(self).address() == old(self).address(),
            final(self).control_port() == old(self).control_port(),
    {
        self.status = HostStatus::Occupied;
        self.active_request = None;
        self.active_session = Some(session.clone());
        self.session_mgr.start_session(session);
    }

    /// The operator rejected the request; the listener goes on listening.
    pub fn on_session_rejected(&mut self)
        ensures
            final(self).state().status == HostStatus::Listening,
            final(self).state().request is None,
            final(self).state().session == old(self).state().session && final(self).state().authorized == old(self).state().authorized,
            final(self).state() == host_next(old(self).state(), HostEvent::Rejected),
            final(self).address() == old(self).address(),
            final(self).control_port() == old(self).control_port(),
    {
        self.status = HostStatus::Listening;
        self.active_request = None;
    }

    /// The live session ended; input is no longer authorised and the
    /// listener goes on listening.
    pub fn on_session_finished(&mut self)
        ensures
            final(self).state().status == HostStatus::Listening,
            final(self).state().session is None && final(self).state().authorized is None,
            final(self).state().request == old(self).state().request,
            final(self).state() == host_next(old(self).state(), HostEvent::SessionFinished),
            final(self).address() == old(self).address(),
            final(self).control_port() == old(self).control_port(),
    {
        self.session_mgr.end_session();
        self.status = HostStatus::Listening;
        self.active_session = None;
    }

    /// The operator stopped the listener: nothing is pending or active.
    pub fn stop_listening(&mut self)
        ensures
            final(self).state().status == HostStatus::Idle,
            final(self).state().request is None && final(self).state().session is None && final(self).state().authorized is None,
            final(self).state() == host_next(old(self).state(), HostEvent::Stopped),
            final(self).address() == old(self).address(),
            final(self).control_port() == old(self).control_port(),
    {
        self.status = HostStatus::Idle;
        self.session_mgr.end_session();
        self.active_request = None;
        self.active_session = None;
    }
}

/// What the live-session loop does next.
#[derive(Debug)]
pub enum HostLiveStep {
    /// The operator ended the session: send this notice and stop.
    NotifyDisconnect(DisconnectMessage),
    /// The viewer has been silent too long: stop.
    TimedOut,
    /// Go on reading the viewer's frames, after sending a metrics report if
    /// `send_metrics` holds.
    Proceed { send_metrics: bool },
}

/// A frame read from the viewer during a live session, by what it carries.
pub enum ViewerFrame {
    Heartbeat(Heartbeat),
    Disconnect,
    /// An input event for the host's desktop.
    Input,
    /// Any other message, or bytes that decode to none.
    Other,
}

/// What the host does with a frame from the viewer.
#[derive(Debug, Clone, Copy, PartialEq, Eq, Structural)]
pub enum HostReaction {
    /// Send this acknowledgement; the second value is the round-trip
    /// estimate in microseconds.
    Acknowledge(HeartbeatAck, u64),
    /// End the session.
    Close,
    /// Inject the input event.
    Inject,
    /// Do nothing more.
    Ignore,
}

/// Pacing of a live session on the host: heartbeat watch and metrics
/// reports. Times are milliseconds on a monotonic clock.
pub struct HostLiveSession {
    last_heard_ms: u64,
    last_metrics_sent_ms: u64,
}

impl HostLiveSession {
    /// When the viewer was last heard from (or the session started).
    pub closed spec fn last_heard(&self) -> u64 {
        self.last_heard_ms
    }

    /// When the last metrics report was due (or the session started).
    pub closed spec fn last_metrics(&self) -> u64 {
        self.last_metrics_sent_ms
    }

    /// A session that starts at `now_ms`.
    pub fn new(now_ms: u64) -> (r: Self)
        ensures
            r.last_heard() == now_ms,
            r.last_metrics() == now_ms,
    {
        HostLiveSession { last_heard_ms: now_ms, last_metrics_sent_ms: now_ms }
    }

    /// Decides the next step at `now_ms`: an operator's disconnect comes
    /// first, then the timeout (more than `HEARTBEAT_TIMEOUT_MS` without a
    /// heartbeat or other frame from the viewer), then a metrics report once more than
    /// `METRICS_INTERVAL_MS` have passed since the last.
    pub fn poll(&mut self, now_ms: u64, disconnect_requested: bool) -> (r: HostLiveStep)
        ensures
            final(self).last_heard() == old(self).last_heard(),
            disconnect_requested ==> (r matches HostLiveStep::NotifyDisconnect(m) && m.reason
                == DisconnectReason::UserClosed && m.message@ == "Closed by host side operator."@),
            !disconnect_requested && elapsed_ms(old(self).last_heard(), now_ms) > HEARTBEAT_TIMEOUT_MS
                ==> r is TimedOut,
            !disconnect_requested && elapsed_ms(old(self).last_heard(), now_ms) <= HEARTBEAT_TIMEOUT_MS
                ==> r == (HostLiveStep::Proceed {
                send_metrics: elapsed_ms(old(self).last_metrics(), now_ms) > METRICS_INTERVAL_MS,
            }),
            final(self).last_metrics() == (if r matches HostLiveStep::Proceed { send_metrics: true } {
                now_ms
            } else {
                old(self).last_metrics()
            }),
    {
        if disconnect_requested {
            return HostLiveStep::NotifyDisconnect(
                DisconnectMessage {
                    reason: DisconnectReason::UserClosed,
                    message: String::from_str("Closed by host side operator."),
                },
            );
        }
        let silent = if now_ms >= self.last_heard_ms { now_ms - self.last_heard_ms } else { 0 };
        if silent > HEARTBEAT_TIMEOUT_MS {
            return HostLiveStep::TimedOut;
        }
        let since_metrics = if now_ms >= self.last_metrics_sent_ms {
            now_ms - self.last_metrics_sent_ms
        } else {
            0
        };
        if since_metrics > METRICS_INTERVAL_MS {
            self.last_metrics_sent_ms = now_ms;
            HostLiveStep::Proceed { send_metrics: true }
        } else {
            HostLiveStep::Proceed { send_metrics: false }
        }
    }

    /// A frame other than a heartbeat arrived from the viewer at `now_ms`:
    /// the silence timer restarts.
    pub fn on_frame_received(&mut self, now_ms: u64)
        ensures
            final(self).last_heard() == now_ms,
            final(self).last_metrics() == old(self).last_metrics(),
    {
        self.last_heard_ms = now_ms;
    }

    /// Handles a frame that arrived from the viewer at `now_ms` (`now_us` on
    /// the wall clock): any frame restarts the silence timer; a heartbeat is
    /// acknowledged; a disconnect ends the session; an input event is
    /// injected only where `input_authorized` holds (the session's viewer,
    /// from its address, with control allowed); anything else is ignored.
    pub fn on_viewer_frame(&mut self, frame: &ViewerFrame, input_authorized: bool, now_ms: u64, now_us: u64) -> (r: HostReaction)
        ensures
            final(self).last_heard() == now_ms,
            final(self).last_metrics() == old(self).last_metrics(),
            r == match *frame {
                ViewerFrame::Heartbeat(hb) => HostReaction::Acknowledge(
                    HeartbeatAck { timestamp_us: hb.timestamp_us, sequence: hb.sequence },
                    elapsed_ms(hb.timestamp_us, now_us),
                ),
                ViewerFrame::Disconnect => HostReaction::Close,
                ViewerFrame::Input => if input_authorized { HostReaction::Inject } else { HostReaction::Ignore },
                ViewerFrame::Other => HostReaction::Ignore,
            },
    {
        self.on_frame_received(now_ms);
        match frame {
            ViewerFrame::Heartbeat(hb) => {
                let (ack, rtt) = self.on_heartbeat(hb, now_ms, now_us);
                HostReaction::Acknowledge(ack, rtt)
            },
            ViewerFrame::Disconnect => HostReaction::Close,
            ViewerFrame::Input => if input_authorized { HostReaction::Inject } else { HostReaction::Ignore },
            ViewerFrame::Other => HostReaction::Ignore,
        }
    }

    /// A heartbeat arrived at `now_ms` (`now_us` on the wall clock, in
    /// microseconds): the silence timer restarts, the acknowledgement echoes
    /// the heartbeat, and the round-trip estimate in microseconds is
    /// returned.
    pub fn on_heartbeat(&mut self, hb: &Heartbeat, now_ms: u64, now_us: u64) -> (r: (HeartbeatAck, u64))
        ensures
            final(self).last_heard() == now_ms,
            final(self).last_metrics() == old(self).last_metrics(),
            r.0 == (HeartbeatAck { timestamp_us: hb.timestamp_us, sequence: hb.sequence }),
            r.1 == elapsed_ms(hb.timestamp_us, now_us),
    {
        self.last_heard_ms = now_ms;
        let rtt = now_us.saturating_sub(hb.timestamp_us);
        (HeartbeatAck { timestamp_us: hb.timestamp_us, sequence: hb.sequence }, rtt)
    }
}

/// State of the host's window: the capture source shown, the port being
/// typed, and the error to show.
pub struct HostUi {
    capturer_name: String,
    screen_width: u32,
    screen_height: u32,
    port_input: String,
    error_message: Option<String>,
}

impl HostUi {
    pub closed spec fn source(&self) -> (Seq<char>, u32, u32) {
        (self.capturer_name@, self.screen_width, self.screen_height)
    }

    pub closed spec fn port_text(&self) -> Seq<char> {
        self.port_input@
    }

    pub closed spec fn error(&self) -> Option<Seq<char>> {
        match self.error_message {
            Some(e) => Some(e@),
            None => None,
        }
    }

    /// The window for the capture source `info`, with the default port typed
    /// in and no error shown.
    pub fn new(info: CaptureSourceInfo) -> (r: Self)
        ensures
            r.source() == (info.name@, info.width, info.height),
            r.port_text() == "8443"@,
            r.error() is None,
    {
        HostUi {
            capturer_name: info.name,
            screen_width: info.width,
            screen_height: info.height,
            port_input: String::from_str("8443"),
            error_message: None,
        }
    }

    /// The operator edited the port field to `text`: a valid port (white
    /// space around it ignored) becomes the listener's port and clears the
    /// error; anything else leaves the port and shows "Invalid port number".
    pub fn on_port_input_changed(&mut self, text: String, net: &mut NetworkManager)
        ensures
            final(self).port_text() == text@,
            final(self).source() == old(self).source(),
            final(net).state() == old(net).state(),
            final(net).address() == old(net).address(),
            match parsed_u16(trimmed(text@)) {
                Some(p) => final(net).control_port() == p && final(self).error() is None,
                None => final(net).control_port() == old(net).control_port() && final(self).error()
                    == Some("Invalid port number"@),
            },
    {
        match parse_port(text.as_str()) {
            Some(p) => {
                net.set_port(p);
                self.error_message = None;
            },
            None => {
                self.error_message = Some(String::from_str("Invalid port number"));
            },
        }
        self.port_input = text;
    }

    /// The operator pressed the start button and `result` is what starting
    /// the listener gave: its error is shown, or the error is cleared.
    pub fn on_listen_result(&mut self, result: Result<(), String>)
        ensures
            final(self).error() == (match result {
                Ok(()) => None,
                Err(e) => Some(e@),
            }),
            final(self).port_text() == old(self).port_text(),
            final(self).source() == old(self).source(),
    {
        match result {
            Ok(()) => {
                self.error_message = None;
            },
            Err(e) => {
                self.error_message = Some(e);
            },
        }
    }
}

} // verus!
