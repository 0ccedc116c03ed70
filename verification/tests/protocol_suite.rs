use arclink::host::DEFAULT_VIDEO_PORT;
use arclink::input::KeyboardEvent;
use arclink::protocol::SessionAccept;
use arclink::session::HostStatus;
use chrono::Utc;

#[test]
fn test_keyboard_event_mapping() {
    let event = KeyboardEvent {
        vk_code: 0x0D, // Enter key
        is_down: true,
        modifiers: 2, // Ctrl modifier
    };

    assert_eq!(event.vk_code, 13);
    assert!(event.is_down);
    assert_eq!(event.modifiers, 2);
}

#[test]
fn test_local_loopback_connection_simulation() {
    let host_status = HostStatus::Listening;
    let mut session_established = false;

    let mock_accept = SessionAccept {
        session_id: "SESSION-1".to_string(),
        host_name: "HOST-PC".to_string(),
        accepted_time: Utc::now().timestamp_micros(),
        control_port: 8443,
        video_port: 8444,
    };

    if host_status == HostStatus::Listening {
        session_established = true;
    }

    assert!(session_established);
    assert_eq!(mock_accept.control_port, 8443);
    assert_eq!(mock_accept.video_port, DEFAULT_VIDEO_PORT);
}
