use arclink::protocol::{HeartbeatAck, SessionAccept, SessionReject, VideoPacketHeader};
use arclink::session::{ViewerSessionManager, ViewerStatus};
use arclink::viewer::{
    connect_port, is_video_header, HandshakeResponse, HostFrame, NetworkManager, ViewerLiveSession, ViewerReaction,
};

#[test]
fn viewer_request_and_acceptance() {
    let mut net = NetworkManager::new(ViewerSessionManager::new());
    assert_eq!(net.get_status(), ViewerStatus::Disconnected);
    let req = net.connect_to_host(1_700_000_000_123_456);
    assert_eq!(net.get_status(), ViewerStatus::Connecting);
    assert_eq!(req.session_id, "SESS-1700000000123");
    assert_eq!(req.viewer_name, "ARC-VIEWER-9911");
    assert_eq!(req.viewer_ip, "127.0.0.1");
    assert_eq!((req.required_fps, req.width, req.height), (30, 1920, 1080));
    let accept = SessionAccept {
        session_id: "SESS-1700000000123".to_string(),
        host_name: "WORKSTATION-WIN11-PRO".to_string(),
        accepted_time: 1,
        control_port: 8443,
        video_port: 8444,
    };
    let s = net
        .on_handshake_response(HandshakeResponse::Accepted(accept), "10.0.0.2".to_string(), "10.0.0.1".to_string(), 7)
        .unwrap();
    assert_eq!(s.host_id, "WORKSTATION-WIN11-PRO");
    assert_eq!(s.viewer_id, "ARC-VIEWER-9911");
    assert_eq!(s.viewer_ip, "10.0.0.2");
    assert_eq!(s.start_time, 7);
    assert_eq!(net.get_status(), ViewerStatus::Connected);
    assert_eq!(net.get_active_session().unwrap().session_id, "SESS-1700000000123");
    net.on_session_closed();
    assert_eq!(net.get_status(), ViewerStatus::Disconnected);
    assert!(net.get_active_session().is_none());
}

#[test]
fn viewer_session_id_before_epoch() {
    let mut net = NetworkManager::new(ViewerSessionManager::new());
    assert_eq!(net.connect_to_host(-1).session_id, "SESS--1");
    assert_eq!(net.connect_to_host(-1000).session_id, "SESS--1");
    assert_eq!(net.connect_to_host(-1001).session_id, "SESS--2");
    assert_eq!(net.connect_to_host(999).session_id, "SESS-0");
}

#[test]
fn viewer_rejection_and_errors() {
    let mut net = NetworkManager::new(ViewerSessionManager::new());
    net.connect_to_host(0);
    let r = net.on_handshake_response(
        HandshakeResponse::Rejected(SessionReject { session_id: "x".to_string(), reason: "no".to_string() }),
        String::new(),
        String::new(),
        0,
    );
    assert!(r.is_none());
    assert_eq!(net.get_status(), ViewerStatus::Disconnected);
    net.connect_to_host(0);
    assert!(net.on_handshake_response(HandshakeResponse::Unexpected, String::new(), String::new(), 0).is_none());
    assert_eq!(net.get_status(), ViewerStatus::Error);
    net.on_handshake_failed();
    assert_eq!(net.get_status(), ViewerStatus::Error);
    net.on_video_bind_failed();
    assert_eq!(net.get_status(), ViewerStatus::Disconnected);
    net.disconnect_from_host();
    assert_eq!(net.get_status(), ViewerStatus::Disconnected);
}

#[test]
fn viewer_heartbeats_and_timeout() {
    let mut live = ViewerLiveSession::new(0);
    let step = live.poll(1000, 10);
    assert!(step.heartbeat.is_none());
    assert!(!step.timed_out);
    let step = live.poll(1001, 11);
    let hb = step.heartbeat.unwrap();
    assert_eq!((hb.sequence, hb.timestamp_us), (1, 11));
    let step = live.poll(2002, 12);
    assert_eq!(step.heartbeat.unwrap().sequence, 2);
    let rtt = live.on_heartbeat_ack(&HeartbeatAck { timestamp_us: 12, sequence: 2 }, 2100, 512);
    assert_eq!(rtt, 500);
    assert!(!live.poll(6100, 0).timed_out);
    assert!(live.poll(6101, 0).timed_out);
    live.on_frame_received(6101);
    assert!(!live.poll(6102, 0).timed_out);
}

#[test]
fn viewer_port_and_video_filter() {
    assert_eq!(connect_port("9000"), 9000);
    assert_eq!(connect_port("  +9001\n"), 9001);
    assert_eq!(connect_port("host"), 8443);
    assert_eq!(connect_port("-1"), 8443);
    assert_eq!(connect_port(""), 8443);
    let mut h = VideoPacketHeader {
        magic: 0x4152434C,
        protocol_version: 1,
        session_id: 1,
        frame_id: 1,
        capture_timestamp_us: 0,
        fragment_index: 0,
        fragment_count: 1,
        payload_len: 0,
        flags: 0,
    };
    assert!(is_video_header(&h));
    h.magic = 0;
    assert!(!is_video_header(&h));
}

#[test]
fn viewer_disconnect_notice() {
    let n = arclink::viewer::disconnect_notice();
    assert_eq!(n.reason, arclink::session::DisconnectReason::UserClosed);
    assert_eq!(n.message, "Viewer closed.");
}

#[test]
fn viewer_dispatches_host_frames() {
    let mut live = ViewerLiveSession::new(0);
    let ack = HeartbeatAck { timestamp_us: 500, sequence: 1 };
    assert_eq!(live.on_host_frame(&HostFrame::HeartbeatAck(ack), 10, 900), ViewerReaction::RoundTrip(400));
    assert_eq!(live.on_host_frame(&HostFrame::Metrics, 20, 0), ViewerReaction::ApplyMetrics);
    assert_eq!(live.on_host_frame(&HostFrame::Other, 30, 0), ViewerReaction::Ignore);
    assert_eq!(live.on_host_frame(&HostFrame::Disconnect, 4_000, 0), ViewerReaction::Close);
    assert!(!live.poll(8_000, 0).timed_out);
    assert!(live.poll(8_001, 0).timed_out);
}
