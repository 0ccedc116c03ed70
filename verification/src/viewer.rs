//! The viewer's side of the control channel: the connection state machine,
//! the session request it sends, the session it records on acceptance, and
//! the heartbeat pacing of a live session. Sockets and clocks belong to the
//! caller, which reports what happened and performs what is decided here.
use vstd::prelude::*;

use crate::metrics::elapsed_ms;
use crate::protocol::{
    DisconnectMessage, Heartbeat, HeartbeatAck, SessionAccept, SessionRequest, VideoPacketHeader, VIDEO_MAGIC,
};
use crate::session::{DisconnectReason, RemoteSession, ViewerSessionManager, ViewerStatus};
use crate::text::{append_decimal_i64, decimal_int, parse_port, parsed_u16, trimmed};

verus! {

/// Interval between two heartbeats.
pub const HEARTBEAT_INTERVAL_MS: u64 = 1000;

/// Time without a heartbeat acknowledgement or any other frame from the
/// host after which the session is given up.
pub const HOST_TIMEOUT_MS: u64 = 4000;

/// Frame rate the viewer asks for.
pub const REQUESTED_FPS: u32 = 30;

/// The host's answer to a session request.
#[derive(Debug)]
pub enum HandshakeResponse {
    Accepted(SessionAccept),
    Rejected(crate::protocol::SessionReject),
    /// Any other message.
    Unexpected,
}

/// The viewer's connection state: its status, the session it records, and
/// the session its session manager holds.
pub struct ViewerState {
    pub status: ViewerStatus,
    pub session: Option<RemoteSession>,
    pub managed: Option<RemoteSession>,
}

/// What happens to the viewer's connection.
pub enum ViewerEvent {
    /// The operator asked to connect.
    ConnectRequested,
    /// The handshake failed before the host answered.
    HandshakeFailed,
    /// The host accepted; `0` is the session recorded.
    Accepted(RemoteSession),
    /// The host rejected the request.
    Rejected,
    /// The host answered with something else.
    Unexpected,
    /// The video port could not be bound after acceptance.
    VideoBindFailed,
    /// The live session ended.
    SessionClosed,
    /// The operator disconnected.
    DisconnectRequested,
}

/// The viewer's next state.
pub open spec fn viewer_next(s: ViewerState, e: ViewerEvent) -> ViewerState {
    match e {
        ViewerEvent::ConnectRequested => ViewerState { status: ViewerStatus::Connecting, session: s.session, managed: s.managed },
        ViewerEvent::HandshakeFailed => ViewerState { status: ViewerStatus::Error, session: s.session, managed: s.managed },
        ViewerEvent::Accepted(x) => ViewerState { status: ViewerStatus::Connected, session: Some(x), managed: Some(x) },
        ViewerEvent::Rejected => ViewerState { status: ViewerStatus::Disconnected, session: s.session, managed: s.managed },
        ViewerEvent::Unexpected => ViewerState { status: ViewerStatus::Error, session: s.session, managed: s.managed },
        ViewerEvent::VideoBindFailed => ViewerState { status: ViewerStatus::Disconnected, session: s.session, managed: s.managed },
        ViewerEvent::SessionClosed => ViewerState { status: ViewerStatus::Disconnected, session: None, managed: None },
        ViewerEvent::DisconnectRequested => ViewerState { status: ViewerStatus::Disconnected, session: s.session, managed: None },
    }
}

/// What each event does to the viewer. The operator's disconnect leaves it
/// disconnected with its session manager holding no session, so nothing of
/// the session keeps running; a closed session clears both the recorded and
/// the held session; acceptance records and holds the accepted session; the
/// other events change the status alone.
pub proof fn lemma_viewer_event_outcomes(s: ViewerState, x: RemoteSession)
    ensures
        ({
            let t = viewer_next(s, ViewerEvent::DisconnectRequested);
            t.status == ViewerStatus::Disconnected && t.managed is None && t.session == s.session
        }),
        ({
            let t = viewer_next(s, ViewerEvent::SessionClosed);
            t.status == ViewerStatus::Disconnected && t.managed is None && t.session is None
        }),
        ({
            let t = viewer_next(s, ViewerEvent::Accepted(x));
            t.status == ViewerStatus::Connected && t.session == Some(x) && t.managed == Some(x)
        }),
        ({
            let t = viewer_next(s, ViewerEvent::ConnectRequested);
            t.status == ViewerStatus::Connecting && t.session == s.session && t.managed == s.managed
        }),
        ({
            let t = viewer_next(s, ViewerEvent::HandshakeFailed);
            t.status == ViewerStatus::Error && t.session == s.session && t.managed == s.managed
        }),
        ({
            let t = viewer_next(s, ViewerEvent::Rejected);
            t.status == ViewerStatus::Disconnected && t.session == s.session && t.managed == s.managed
        }),
        ({
            let t = viewer_next(s, ViewerEvent::Unexpected);
            t.status == ViewerStatus::Error && t.session == s.session && t.managed == s.managed
        }),
        ({
            let t = viewer_next(s, ViewerEvent::VideoBindFailed);
            t.status == ViewerStatus::Disconnected && t.session == s.session && t.managed == s.managed
        }),
{
}

/// The viewer shows `Connected` only with a recorded session, and its
/// session manager holds that same session.
pub open spec fn viewer_consistent(s: ViewerState) -> bool {
    s.status == ViewerStatus::Connected ==> s.session is Some && s.managed == s.session
}

/// Every event keeps the viewer consistent: whatever happens, it never shows
/// `Connected` without the session it was accepted into.
pub proof fn lemma_viewer_stays_consistent(s: ViewerState, e: ViewerEvent)
    requires
        viewer_consistent(s),
    ensures
        viewer_consistent(viewer_next(s, e)),
{
}

/// Whether `s` is the session the viewer records when the host at `host_ip`
/// accepts with `accept`, the viewer's own address being `local_ip`.
pub open spec fn is_recorded_session(
    s: RemoteSession,
    accept: SessionAccept,
    local_ip: Seq<char>,
    host_ip: Seq<char>,
    now_us: i64,
) -> bool {
    &&& s.session_id@ == accept.session_id@
    &&& s.viewer_id@ == "ARC-VIEWER-9911"@
    &&& s.host_id@ == accept.host_name@
    &&& s.viewer_ip@ == local_ip
    &&& s.host_ip@ == host_ip
    &&& s.start_time == now_us
    &&& s.protocol_version@ == "1.0"@
    &&& s.allow_control
}

/// The viewer's connection state.
pub struct NetworkManager {
    status: ViewerStatus,
    active_session: Option<RemoteSession>,
    session_mgr: ViewerSessionManager,
}

impl NetworkManager {
    pub closed spec fn state(&self) -> ViewerState {
        ViewerState { status: self.status, session: self.active_session, managed: self.session_mgr.active() }
    }

    /// A disconnected viewer with the session manager `session_mgr`.
    pub fn new(session_mgr: ViewerSessionManager) -> (r: Self)
        ensures
            r.state() == (ViewerState {
                status: ViewerStatus::Disconnected,
                session: None,
                managed: session_mgr.active(),
            }),
    {
        NetworkManager { status: ViewerStatus::Disconnected, active_session: None, session_mgr }
    }

    pub fn get_status(&self) -> (r: ViewerStatus)
        ensures
            r == self.state().status,
    {
        self.status
    }

    pub fn get_active_session(&self) -> (r: Option<RemoteSession>)
        ensures
            r == self.state().session,
    {
        match &self.active_session {
            Some(s) => Some(s.clone()),
            None => None,
        }
    }

    /// Whether the session manager holds a session, that is, whether the
    /// live session is to go on.
    pub fn session_active(&self) -> (r: bool)
        ensures
            r == self.state().managed is Some,
    {
        self.session_mgr.get_active_session().is_some()
    }

    /// The viewer starts connecting; the returned request, made at `now_us`
    /// (microseconds since the Unix epoch), is what it sends first. Its
    /// session id is `SESS-` and the time in whole milliseconds.
    pub fn connect_to_host(&mut self, now_us: i64) -> (r: SessionRequest)
        ensures
            final(self).state().status == ViewerStatus::Connecting,
            final(self).state().session == old(self).state().session && final(self).state().managed == old(self).state().managed,
            final(self).state() == viewer_next(old(self).state(), ViewerEvent::ConnectRequested),
            r.session_id@ == "SESS-"@ + decimal_int(now_us as int / 1000),
            r.viewer_name@ == "ARC-VIEWER-9911"@,
            r.viewer_ip@ == "127.0.0.1"@,
            r.request_time == now_us,
            r.required_fps == REQUESTED_FPS,
            r.width == 1920,
            r.height == 1080,
    {
        self.status = ViewerStatus::Connecting;
        let mut session_id = String::from_str("SESS-");
        let millis: i64 = if now_us >= 0 {
            now_us / 1000
        } else {
            let m: i64 = -(now_us + 1);
            -(m / 1000) - 1
        };
        assert(millis as int == now_us as int / 1000);
        append_decimal_i64(&mut session_id, millis);
        SessionRequest {
            session_id,
            viewer_name: String::from_str("ARC-VIEWER-9911"),
            viewer_ip: String::from_str("127.0.0.1"),
            request_time: now_us,
            required_fps: REQUESTED_FPS,
            width: 1920,
            height: 1080,
        }
    }

    /// The handshake failed before an answer: connecting, sending the
    /// request, or reading or decoding the answer failed.
    pub fn on_handshake_failed(&mut self)
        ensures
            final(self).state().status == ViewerStatus::Error,
            final(self).state().session == old(self).state().session && final(self).state().managed == old(self).state().managed,
            final(self).state() == viewer_next(old(self).state(), ViewerEvent::HandshakeFailed),
    {
        self.status = ViewerStatus::Error;
    }

    /// The host answered. On acceptance the viewer records the session
    /// (with `local_ip` its own address, `host_ip` the host's, started at
    /// `now_us`), is connected, and returns the session; a rejection leaves
    /// it disconnected, any other answer in error.
    pub fn on_handshake_response(
        &mut self,
        response: HandshakeResponse,
        local_ip: String,
        host_ip: String,
        now_us: i64,
    ) -> (r: Option<RemoteSession>)
        ensures
            response is Accepted ==> (final(self).state().status == ViewerStatus::Connected && r is Some
                && final(self).state().session == r && final(self).state().managed == r),
            response is Rejected ==> (final(self).state().status == ViewerStatus::Disconnected && final(self).state().session == old(self).state().session
                && final(self).state().managed == old(self).state().managed),
            response is Unexpected ==> (final(self).state().status == ViewerStatus::Error && final(self).state().session == old(self).state().session
                && final(self).state().managed == old(self).state().managed),
            match response {
                HandshakeResponse::Accepted(a) => r matches Some(s) && is_recorded_session(
                    s,
                    a,
                    local_ip@,
                    host_ip@,
                    now_us,
                ) && final(self).state() == viewer_next(old(self).state(), ViewerEvent::Accepted(s)),
                HandshakeResponse::Rejected(_) => r is None && final(self).state() == viewer_next(
                    old(self).state(),
                    ViewerEvent::Rejected,
                ),
                HandshakeResponse::Unexpected => r is None && final(self).state() == viewer_next(
                    old(self).state(),
                    ViewerEvent::Unexpected,
                ),
            },
    {
        match response {
            HandshakeResponse::Accepted(accept) => {
                let session = RemoteSession {
                    session_id: accept.session_id,
                    viewer_id: String::from_str("ARC-VIEWER-9911"),
                    host_id: accept.host_name,
                    viewer_ip: local_ip,
                    host_ip,
                    start_time: now_us,
                    protocol_version: String::from_str("1.0"),
                    allow_control: true,
                };
                self.status = ViewerStatus::Connected;
                self.active_session = Some(session.clone());
                self.session_mgr.start_session(session.clone());
                Some(session)
            },
            HandshakeResponse::Rejected(_) => {
                self.status = ViewerStatus::Disconnected;
                None
            },
            HandshakeResponse::Unexpected => {
                self.status = ViewerStatus::Error;
                None
            },
        }
    }

    /// The video port could not be bound after acceptance.
    pub fn on_video_bind_failed(&mut self)
        ensures
            final(self).state().status == ViewerStatus::Disconnected,
            final(self).state().session == old(self).state().session && final(self).state().managed == old(self).state().managed,
            final(self).state() == viewer_next(old(self).state(), ViewerEvent::VideoBindFailed),
    {
        self.status = ViewerStatus::Disconnected;
    }

    /// The live session ended.
    pub fn on_session_closed(&mut self)
        ensures
            final(self).state().status == ViewerStatus::Disconnected,
            final(self).state().session is None && final(self).state().managed is None,
            final(self).state() == viewer_next(old(self).state(), ViewerEvent::SessionClosed),
    {
        self.session_mgr.end_session();
        self.status = ViewerStatus::Disconnected;
        self.active_session = None;
    }

    /// The operator disconnects.
    pub fn disconnect_from_host(&mut self)
        ensures
            final(self).state().status == ViewerStatus::Disconnected,
            final(self).state().managed is None,
            final(self).state().session == old(self).state().session,
            final(self).state() == viewer_next(old(self).state(), ViewerEvent::DisconnectRequested),
    {
        self.status = ViewerStatus::Disconnected;
        self.session_mgr.end_session();
    }
}

/// Whether a received video header carries the video magic; other packets
/// are ignored.
pub fn is_video_header(header: &VideoPacketHeader) -> (r: bool)
    ensures
        r == (header.magic == VIDEO_MAGIC),
{
    header.magic == VIDEO_MAGIC
}

/// What the viewer's live loop does in one round.
#[derive(Debug, Clone, Copy, PartialEq, Eq, Structural)]
pub struct ViewerLiveStep {
    /// A heartbeat to send first, if one is due.
    pub heartbeat: Option<Heartbeat>,
    /// Whether the host has been silent too long, ending the session.
    pub timed_out: bool,
}

/// A frame read from the host during a live session, by what it carries.
pub enum HostFrame {
    HeartbeatAck(HeartbeatAck),
    /// A report of the host's capture metrics.
    Metrics,
    Disconnect,
    /// Any other message, or bytes that decode to none.
    Other,
}

/// What the viewer does with a frame from the host.
#[derive(Debug, Clone, Copy, PartialEq, Eq, Structural)]
pub enum ViewerReaction {
    /// Record this round-trip estimate, in microseconds.
    RoundTrip(u64),
    /// Show the host's metrics.
    ApplyMetrics,
    /// End the session.
    Close,
    /// Do nothing more.
    Ignore,
}

/// Heartbeat pacing of a live session on the viewer. Times are
/// milliseconds on a monotonic clock.
pub struct ViewerLiveSession {
    last_heartbeat_sent_ms: u64,
    last_heard_ms: u64,
    sequence: u64,
}

impl ViewerLiveSession {
    pub closed spec fn last_sent(&self) -> u64 {
        self.last_heartbeat_sent_ms
    }

    /// When the host was last heard from (or the session started).
    pub closed spec fn last_heard(&self) -> u64 {
        self.last_heard_ms
    }

    /// Sequence number of the last heartbeat sent.
    pub closed spec fn sequence(&self) -> u64 {
        self.sequence
    }

    /// Sequence number of the last heartbeat sent.
    pub fn sequence_number(&self) -> (r: u64)
        ensures
            r == self.sequence(),
    {
        self.sequence
    }

    /// A session that starts at `now_ms`, with no heartbeat sent yet.
    pub fn new(now_ms: u64) -> (r: Self)
        ensures
            r.last_sent() == now_ms,
            r.last_heard() == now_ms,
            r.sequence() == 0,
    {
        ViewerLiveSession { last_heartbeat_sent_ms: now_ms, last_heard_ms: now_ms, sequence: 0 }
    }

    /// One round at `now_ms` (`now_us` on the wall clock, microseconds): a
    /// heartbeat with the next sequence number is due once more than
    /// `HEARTBEAT_INTERVAL_MS` have passed since the last, and the session
    /// times out after more than `HOST_TIMEOUT_MS` without a frame from the
    /// host.
    pub fn poll(&mut self, now_ms: u64, now_us: u64) -> (r: ViewerLiveStep)
        requires
            elapsed_ms(old(self).last_sent(), now_ms) > HEARTBEAT_INTERVAL_MS ==> old(self).sequence() < u64::MAX,
        ensures
            elapsed_ms(old(self).last_sent(), now_ms) > HEARTBEAT_INTERVAL_MS ==> {
                &&& r.heartbeat == Some(Heartbeat { timestamp_us: now_us, sequence: (old(self).sequence() + 1) as u64 })
                &&& final(self).sequence() == old(self).sequence() + 1
                &&& final(self).last_sent() == now_ms
            },
            elapsed_ms(old(self).last_sent(), now_ms) <= HEARTBEAT_INTERVAL_MS ==> {
                &&& r.heartbeat is None
                &&& final(self).sequence() == old(self).sequence()
                &&& final(self).last_sent() == old(self).last_sent()
            },
            r.timed_out == (elapsed_ms(old(self).last_heard(), now_ms) > HOST_TIMEOUT_MS),
            final(self).last_heard() == old(self).last_heard(),
    {
        let since_sent = if now_ms >= self.last_heartbeat_sent_ms {
            now_ms - self.last_heartbeat_sent_ms
        } else {
            0
        };
        let heartbeat = if since_sent > HEARTBEAT_INTERVAL_MS {
            self.sequence = self.sequence + 1;
            self.last_heartbeat_sent_ms = now_ms;
            Some(Heartbeat { timestamp_us: now_us, sequence: self.sequence })
        } else {
            None
        };
        let silent = if now_ms >= self.last_heard_ms { now_ms - self.last_heard_ms } else { 0 };
        ViewerLiveStep { heartbeat, timed_out: silent > HOST_TIMEOUT_MS }
    }

    /// A frame other than an acknowledgement arrived from the host at
    /// `now_ms`: the silence timer restarts.
    pub fn on_frame_received(&mut self, now_ms: u64)
        ensures
            final(self).last_heard() == now_ms,
            final(self).last_sent() == old(self).last_sent(),
            final(self).sequence() == old(self).sequence(),
    {
        self.last_heard_ms = now_ms;
    }

    /// Handles a frame that arrived from the host at `now_ms` (`now_us` on
    /// the wall clock): any frame restarts the silence timer; an
    /// acknowledgement gives a round-trip estimate; a metrics report is shown;
    /// a disconnect ends the session; anything else is ignored.
    pub fn on_host_frame(&mut self, frame: &HostFrame, now_ms: u64, now_us: u64) -> (r: ViewerReaction)
        ensures
            final(self).last_heard() == now_ms,
            final(self).last_sent() == old(self).last_sent(),
            final(self).sequence() == old(self).sequence(),
            r == match *frame {
                HostFrame::HeartbeatAck(ack) => ViewerReaction::RoundTrip(elapsed_ms(ack.timestamp_us, now_us)),
                HostFrame::Metrics => ViewerReaction::ApplyMetrics,
                HostFrame::Disconnect => ViewerReaction::Close,
                HostFrame::Other => ViewerReaction::Ignore,
            },
    {
        self.on_frame_received(now_ms);
        match frame {
            HostFrame::HeartbeatAck(ack) => ViewerReaction::RoundTrip(self.on_heartbeat_ack(ack, now_ms, now_us)),
            HostFrame::Metrics => ViewerReaction::ApplyMetrics,
            HostFrame::Disconnect => ViewerReaction::Close,
            HostFrame::Other => ViewerReaction::Ignore,
        }
    }

    /// An acknowledgement arrived at `now_ms`: the silence timer restarts
    /// and the round-trip estimate in microseconds is returned.
    pub fn on_heartbeat_ack(&mut self, ack: &HeartbeatAck, now_ms: u64, now_us: u64) -> (rtt_us: u64)
        ensures
            final(self).last_heard() == now_ms,
            final(self).last_sent() == old(self).last_sent(),
            final(self).sequence() == old(self).sequence(),
            rtt_us == elapsed_ms(ack.timestamp_us, now_us),
    {
        self.last_heard_ms = now_ms;
        now_us.saturating_sub(ack.timestamp_us)
    }
}

/// The port the viewer dials for the typed `text`: the typed port, or the
/// default control port where the text is no valid port.
pub fn connect_port(text: &str) -> (r: u16)
    ensures
        r == match parsed_u16(trimmed(text@)) {
            Some(p) => p,
            None => crate::host::DEFAULT_CONTROL_PORT,
        },
{
    match parse_port(text) {
        Some(p) => p,
        None => crate::host::DEFAULT_CONTROL_PORT,
    }
}

/// The notice the viewer sends to the host when its operator ends the
/// session.
pub fn disconnect_notice() -> (r: DisconnectMessage)
    ensures
        r.reason == DisconnectReason::UserClosed,
        r.message@ == "Viewer closed."@,
{
    DisconnectMessage { reason: DisconnectReason::UserClosed, message: String::from_str("Viewer closed.") }
}

} // verus!
