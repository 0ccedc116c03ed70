use arclink::host::{
    build_acceptance, build_rejection, handshake_reply, HandshakeReply, HostLiveSession, HostLiveStep, HostReaction, HostUi,
    NetworkManager, UserAction, ViewerFrame,
};
use arclink::capture::CaptureSourceInfo;
use arclink::protocol::{Heartbeat, HeartbeatAck, SessionRequest};
use arclink::session::{DisconnectReason, HostSessionManager, HostStatus, RemoteSession, ViewerSessionManager};

fn request() -> SessionRequest {
    SessionRequest {
        session_id: "REQ-778".to_string(),
        viewer_name: "VIEWER-LAPTOP".to_string(),
        viewer_ip: "192.168.1.150".to_string(),
        request_time: 1_700_000_000_000_000,
        required_fps: 60,
        width: 1920,
        height: 1080,
    }
}

fn session(id: &str, ip: &str, allow: bool) -> RemoteSession {
    RemoteSession {
        session_id: id.to_string(),
        viewer_id: "V".to_string(),
        host_id: "H".to_string(),
        viewer_ip: ip.to_string(),
        host_ip: "10.0.0.1".to_string(),
        start_time: 0,
        protocol_version: "1.0".to_string(),
        allow_control: allow,
    }
}

#[test]
fn host_session_authorizes_only_its_viewer() {
    let mut m = HostSessionManager::new();
    assert!(!m.is_session_authorized("S", "1.2.3.4"));
    m.start_session(session("S", "1.2.3.4", true));
    assert!(m.is_session_authorized("S", "1.2.3.4"));
    assert!(!m.is_session_authorized("S", "1.2.3.5"));
    assert!(!m.is_session_authorized("T", "1.2.3.4"));
    m.end_session();
    assert!(!m.is_session_authorized("S", "1.2.3.4"));
    m.start_session(session("S", "1.2.3.4", false));
    assert!(!m.is_session_authorized("S", "1.2.3.4"));
    assert_eq!(m.get_active_session().unwrap().session_id, "S");
}

#[test]
fn viewer_session_manager_holds_one_session() {
    let mut m = ViewerSessionManager::new();
    assert!(m.get_active_session().is_none());
    m.start_session(session("A", "x", true));
    m.start_session(session("B", "x", true));
    assert_eq!(m.get_active_session().unwrap().session_id, "B");
    m.end_session();
    assert!(m.get_active_session().is_none());
}

#[test]
fn host_handshake_accept_flow() {
    let mut net = NetworkManager::new("10.0.0.1".to_string(), HostSessionManager::new());
    assert_eq!(net.get_status(), HostStatus::Idle);
    assert_eq!(net.port(), 8443);
    assert!(net.start_listening().is_ok());
    assert_eq!(net.get_status(), HostStatus::Listening);
    net.on_session_request(request());
    assert_eq!(net.get_status(), HostStatus::Connecting);
    assert_eq!(net.get_active_request().unwrap().viewer_name, "VIEWER-LAPTOP");
    let (sess, accept) = build_acceptance(&request(), "192.168.1.150".to_string(), net.local_ip(), 5);
    assert_eq!(sess.host_id, "ARC-HOST-7890");
    assert_eq!(sess.viewer_id, "VIEWER-LAPTOP");
    assert_eq!(sess.host_ip, "10.0.0.1");
    assert_eq!(sess.protocol_version, "1.0");
    assert!(sess.allow_control);
    assert_eq!(accept.host_name, "WORKSTATION-WIN11-PRO");
    assert_eq!((accept.control_port, accept.video_port), (8443, 8444));
    assert_eq!(accept.accepted_time, 5);
    net.on_session_accepted(sess);
    assert_eq!(net.get_status(), HostStatus::Occupied);
    assert!(net.get_active_request().is_none());
    assert!(net.is_input_authorized("REQ-778", "192.168.1.150"));
    net.on_session_finished();
    assert_eq!(net.get_status(), HostStatus::Listening);
    assert!(net.get_active_session().is_none());
    assert!(!net.is_input_authorized("REQ-778", "192.168.1.150"));
}

#[test]
fn host_handshake_reject_and_stop() {
    let mut net = NetworkManager::new("10.0.0.1".to_string(), HostSessionManager::new());
    net.set_port(9000);
    assert_eq!(net.port(), 9000);
    net.start_listening().unwrap();
    net.on_session_request(request());
    let reject = build_rejection(&request());
    assert_eq!(reject.session_id, "REQ-778");
    assert_eq!(reject.reason, "Handshake request rejected by Host user.");
    net.on_session_rejected();
    assert_eq!(net.get_status(), HostStatus::Listening);
    assert!(net.get_active_request().is_none());
    net.on_listen_failed();
    assert_eq!(net.get_status(), HostStatus::Error);
    net.stop_listening();
    assert_eq!(net.get_status(), HostStatus::Idle);
    assert_eq!(UserAction::Accept, UserAction::Accept);
}

#[test]
fn host_viewer_leaving_pending_request() {
    let mut net = NetworkManager::new("10.0.0.1".to_string(), HostSessionManager::new());
    net.start_listening().unwrap();
    net.on_session_request(request());
    net.on_viewer_left_pending();
    assert!(net.get_active_request().is_none());
    net.on_handshake_failed();
    assert_eq!(net.get_status(), HostStatus::Listening);
}

#[test]
fn host_live_session_pacing() {
    let mut live = HostLiveSession::new(1000);
    assert!(matches!(live.poll(1500, false), HostLiveStep::Proceed { send_metrics: false }));
    assert!(matches!(live.poll(2001, false), HostLiveStep::Proceed { send_metrics: true }));
    assert!(matches!(live.poll(2500, false), HostLiveStep::Proceed { send_metrics: false }));
    assert!(matches!(live.poll(5000, false), HostLiveStep::Proceed { send_metrics: true }));
    assert!(matches!(live.poll(5001, false), HostLiveStep::TimedOut));
    let (ack, rtt) = live.on_heartbeat(&Heartbeat { timestamp_us: 1_000, sequence: 3 }, 5001, 4_500);
    assert_eq!(ack, HeartbeatAck { timestamp_us: 1_000, sequence: 3 });
    assert_eq!(rtt, 3_500);
    assert!(matches!(live.poll(6002, false), HostLiveStep::Proceed { .. }));
    assert!(matches!(live.poll(9002, false), HostLiveStep::TimedOut));
    live.on_frame_received(9002);
    assert!(matches!(live.poll(9003, false), HostLiveStep::Proceed { .. }));
    match live.poll(6003, true) {
        HostLiveStep::NotifyDisconnect(m) => {
            assert_eq!(m.reason, DisconnectReason::UserClosed);
            assert_eq!(m.message, "Closed by host side operator.");
        }
        _ => panic!("operator disconnect comes first"),
    }
    let (_, rtt) = live.on_heartbeat(&Heartbeat { timestamp_us: 9_000, sequence: 4 }, 7000, 4_500);
    assert_eq!(rtt, 0);
}

#[test]
fn host_ui_port_field() {
    let info = CaptureSourceInfo { name: "Fallback Software Capturer".to_string(), width: 1280, height: 720 };
    let mut ui = HostUi::new(info);
    let mut net = NetworkManager::new("10.0.0.1".to_string(), HostSessionManager::new());
    ui.on_port_input_changed(" 9100 ".to_string(), &mut net);
    assert_eq!(net.port(), 9100);
    ui.on_port_input_changed("99999".to_string(), &mut net);
    assert_eq!(net.port(), 9100);
    ui.on_port_input_changed("80a".to_string(), &mut net);
    assert_eq!(net.port(), 9100);
    ui.on_listen_result(Err("bind failed".to_string()));
    ui.on_listen_result(Ok(()));
}

#[test]
fn host_handshake_reply_follows_the_choice() {
    let req = request();
    match handshake_reply(UserAction::Accept, &req, "10.0.0.2".to_string(), "10.0.0.1".to_string(), 77) {
        HandshakeReply::Accept(s, a) => {
            assert_eq!(s.session_id, req.session_id);
            assert_eq!(s.viewer_ip, "10.0.0.2");
            assert_eq!(s.host_ip, "10.0.0.1");
            assert_eq!(s.start_time, 77);
            assert!(s.allow_control);
            assert_eq!(a.accepted_time, 77);
            assert_eq!(a.control_port, 8443);
            assert_eq!(a.video_port, 8444);
        }
        HandshakeReply::Reject(_) => panic!("accepting gives an acceptance"),
    }
    for choice in [UserAction::Reject, UserAction::Disconnect] {
        match handshake_reply(choice, &req, "10.0.0.2".to_string(), "10.0.0.1".to_string(), 77) {
            HandshakeReply::Reject(j) => {
                assert_eq!(j.session_id, req.session_id);
                assert_eq!(j.reason, "Handshake request rejected by Host user.");
            }
            HandshakeReply::Accept(..) => panic!("only accepting gives an acceptance"),
        }
    }
}

#[test]
fn host_dispatches_viewer_frames() {
    let mut live = HostLiveSession::new(0);
    let hb = Heartbeat { timestamp_us: 1_000, sequence: 4 };
    assert_eq!(
        live.on_viewer_frame(&ViewerFrame::Heartbeat(hb), false, 3_000, 1_250),
        HostReaction::Acknowledge(HeartbeatAck { timestamp_us: 1_000, sequence: 4 }, 250)
    );
    assert_eq!(live.on_viewer_frame(&ViewerFrame::Input, true, 3_100, 0), HostReaction::Inject);
    assert_eq!(live.on_viewer_frame(&ViewerFrame::Input, false, 3_200, 0), HostReaction::Ignore);
    assert_eq!(live.on_viewer_frame(&ViewerFrame::Other, true, 3_300, 0), HostReaction::Ignore);
    assert_eq!(live.on_viewer_frame(&ViewerFrame::Disconnect, true, 3_400, 0), HostReaction::Close);
    // every frame restarts the silence timer: 4000 ms after the last, no timeout yet
    assert!(matches!(live.poll(7_400, false), HostLiveStep::Proceed { send_metrics: true }));
    assert!(matches!(live.poll(7_401, false), HostLiveStep::TimedOut));
}
