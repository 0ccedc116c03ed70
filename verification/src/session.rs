//! Session model: device identity, connection states and the record of an
//! active remote-control session, kept by the host and by the viewer.
use vstd::prelude::*;

verus! {

/// Identity and screen of a device on the LAN.
#[derive(Debug, Clone)]
pub struct DeviceInfo {
    pub device_id: String,
    pub device_name: String,
    pub local_ip: String,
    pub listen_port: u16,
    pub screen_width: u32,
    pub screen_height: u32,
}

/// Where the host stands with respect to remote viewers.
#[derive(Debug, Clone, Copy, PartialEq, Eq, Structural)]
pub enum HostStatus {
    Idle,
    Listening,
    Connecting,
    Occupied,
    Error,
}

/// Where the viewer stands with respect to a host.
#[derive(Debug, Clone, Copy, PartialEq, Eq, Structural)]
pub enum ViewerStatus {
    Disconnected,
    Connecting,
    Connected,
    Reconnecting,
    Error,
}

/// Why a session ended.
#[derive(Debug, Clone, Copy, PartialEq, Eq, Structural)]
pub enum DisconnectReason {
    UserClosed,
    HostRejected,
    HostDisconnected,
    Timeout,
    NetworkError,
    ProtocolViolation,
}

/// An established remote-control session. `start_time` counts microseconds
/// since the Unix epoch (UTC).
#[derive(Debug)]
pub struct RemoteSession {
    pub session_id: String,
    pub viewer_id: String,
    pub host_id: String,
    pub viewer_ip: String,
    pub host_ip: String,
    pub start_time: i64,
    pub protocol_version: String,
    pub allow_control: bool,
}

impl Clone for RemoteSession {
    fn clone(&self) -> (r: Self)
        ensures
            r == *self,
    {
        RemoteSession {
            session_id: self.session_id.clone(),
            viewer_id: self.viewer_id.clone(),
            host_id: self.host_id.clone(),
            viewer_ip: self.viewer_ip.clone(),
            host_ip: self.host_ip.clone(),
            start_time: self.start_time,
            protocol_version: self.protocol_version.clone(),
            allow_control: self.allow_control,
        }
    }
}

/// Whether `session` lets the viewer `viewer_ip` control the host under the
/// session id `session_id`.
pub open spec fn grants_control(session: RemoteSession, session_id: Seq<char>, viewer_ip: Seq<char>) -> bool {
    &&& session.session_id@ == session_id
    &&& session.viewer_ip@ == viewer_ip
    &&& session.allow_control
}

/// Keeps the host's active session and decides whether input may be injected.
pub struct HostSessionManager {
    active_session: Option<RemoteSession>,
}

impl HostSessionManager {
    /// The session now held, if any.
    pub closed spec fn active(&self) -> Option<RemoteSession> {
        self.active_session
    }

    pub fn new() -> (r: Self)
        ensures
            r.active() is None,
    {
        HostSessionManager { active_session: None }
    }

    pub fn start_session(&mut self, session: RemoteSession)
        ensures
            final(self).active() == Some(session),
    {
        self.active_session = Some(session);
    }

    pub fn end_session(&mut self)
        ensures
            final(self).active() is None,
    {
        self.active_session = None;
    }

    pub fn get_active_session(&self) -> (r: Option<RemoteSession>)
        ensures
            r == self.active(),
    {
        match &self.active_session {
            Some(s) => Some(s.clone()),
            None => None,
        }
    }

    /// Input from `viewer_ip` under `session_id` is honoured only while the
    /// active session has that id and viewer address and allows control.
    pub fn is_session_authorized(&self, session_id: &str, viewer_ip: &str) -> (r: bool)
        ensures
            r == (self.active() matches Some(s) && grants_control(s, session_id@, viewer_ip@)),
    {
        match &self.active_session {
            Some(active) => {
                let id = session_id.to_owned();
                let ip = viewer_ip.to_owned();
                active.session_id == id && active.viewer_ip == ip && active.allow_control
            },
            None => false,
        }
    }
}

/// Keeps the viewer's active session.
pub struct ViewerSessionManager {
    active_session: Option<RemoteSession>,
}

impl ViewerSessionManager {
    /// The session now held, if any.
    pub closed spec fn active(&self) -> Option<RemoteSession> {
        self.active_session
    }

    pub fn new() -> (r: Self)
        ensures
            r.active() is None,
    {
        ViewerSessionManager { active_session: None }
    }

    pub fn start_session(&mut self, session: RemoteSession)
        ensures
            final(self).active() == Some(session),
    {
        self.active_session = Some(session);
    }

    pub fn end_session(&mut self)
        ensures
            final(self).active() is None,
    {
        self.active_session = None;
    }

    pub fn get_active_session(&self) -> (r: Option<RemoteSession>)
        ensures
            r == self.active(),
    {
        match &self.active_session {
            Some(s) => Some(s.clone()),
            None => None,
        }
    }
}

/// A session grants control to its own viewer under its own id exactly when
/// it allows control, and to no other viewer address or session id.
pub proof fn lemma_session_grants_own_viewer(s: RemoteSession, session_id: Seq<char>, viewer_ip: Seq<char>)
    ensures
        grants_control(s, s.session_id@, s.viewer_ip@) == s.allow_control,
        session_id != s.session_id@ || viewer_ip != s.viewer_ip@ ==> !grants_control(s, session_id, viewer_ip),
{
}

} // verus!
