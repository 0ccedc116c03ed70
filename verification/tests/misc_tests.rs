use arclink::input::{
    coalesce_pointer_moves, key_event_flags, keyboard_event_for, map_key_to_vk, modifier_flags, mouse_button_flags,
    InputInjector, Key, KeyboardEvent, MouseButton, MOUSE_MOVE_FLAGS,
};
use arclink::logging::ViewerLogger;
use arclink::metrics::{ByteRateWindow, RateSample, SessionClock};
use arclink::text::parse_port;

#[test]
fn keys_map_to_virtual_key_codes() {
    assert_eq!(map_key_to_vk(Key::Enter), 0x0D);
    assert_eq!(map_key_to_vk(Key::Backspace), 0x08);
    assert_eq!(map_key_to_vk(Key::Escape), 0x1B);
    assert_eq!(map_key_to_vk(Key::ArrowDown), 0x28);
    assert_eq!(map_key_to_vk(Key::A), b'A' as u16);
    assert_eq!(map_key_to_vk(Key::Z), b'Z' as u16);
    assert_eq!(map_key_to_vk(Key::Num0), b'0' as u16);
    assert_eq!(map_key_to_vk(Key::Num9), b'9' as u16);
    assert_eq!(map_key_to_vk(Key::Other), 0);
}

#[test]
fn modifier_bits_and_key_events() {
    assert_eq!(modifier_flags(false, false, false, false), 0);
    assert_eq!(modifier_flags(true, true, false, false), 3);
    assert_eq!(modifier_flags(true, true, true, true), 15);
    assert_eq!(
        keyboard_event_for(Key::Enter, true, 2),
        Some(KeyboardEvent { vk_code: 13, is_down: true, modifiers: 2 })
    );
    assert_eq!(keyboard_event_for(Key::Other, true, 0), None);
    let _ = InputInjector::new();
}

#[test]
fn logger_formats_and_bounds_entries() {
    let mut log = ViewerLogger::new("/tmp/viewer.log".to_string());
    assert_eq!(log.file_path_str(), "/tmp/viewer.log");
    let line = log.log_at("2024-01-02 03:04:05", "INFO", "hello");
    assert_eq!(line, "[2024-01-02 03:04:05] [INFO] hello");
    for i in 0..150 {
        log.log_at("t", "WARN", &format!("m{}", i));
    }
    let lines = log.get_ui_logs();
    assert_eq!(lines.len(), 100);
    assert_eq!(lines[0], "[t] [WARN] m50");
    assert_eq!(lines[99], "[t] [WARN] m149");
    log.clear();
    assert!(log.get_ui_logs().is_empty());
}

#[test]
fn logger_stamps_with_utc_time() {
    let mut log = ViewerLogger::new("viewer.log".to_string());
    let line = log.error("boom");
    assert!(line.ends_with("] [ERROR] boom"));
    // "[YYYY-MM-DD HH:MM:SS]"
    assert_eq!(&line[0..1], "[");
    assert_eq!(&line[5..6], "-");
    assert_eq!(&line[11..12], " ");
    assert_eq!(&line[20..21], "]");
    let info = log.info("up");
    assert!(info.ends_with("] [INFO] up"));
    let warn = log.warn("w");
    assert!(warn.ends_with("] [WARN] w"));
    assert_eq!(log.get_ui_logs().len(), 3);
}

#[test]
fn byte_rate_window_closes_after_a_second() {
    let mut w = ByteRateWindow::new(0);
    assert_eq!(w.add_bytes(100, 500), None);
    assert_eq!(w.add_bytes(50, 999), None);
    assert_eq!(w.pending_bytes(), 150);
    assert_eq!(w.add_bytes(10, 1000), Some(RateSample { bytes: 160, elapsed_ms: 1000 }));
    assert_eq!(w.pending_bytes(), 0);
    assert_eq!(w.add_bytes(1, 1999), None);
    assert_eq!(w.add_bytes(1, 2500), Some(RateSample { bytes: 2, elapsed_ms: 1500 }));
}

#[test]
fn session_clock_counts_whole_seconds() {
    let mut c = SessionClock::new();
    assert_eq!(c.active_duration_secs(5000), None);
    c.start_session(1000);
    assert_eq!(c.active_duration_secs(3999), Some(2));
    assert_eq!(c.active_duration_secs(500), Some(0));
    c.stop_session();
    assert_eq!(c.active_duration_secs(5000), None);
}

#[test]
fn ports_parse_like_the_standard_library() {
    assert_eq!(parse_port("8443"), Some(8443));
    assert_eq!(parse_port("\t65535 "), Some(65535));
    assert_eq!(parse_port("65536"), None);
    assert_eq!(parse_port("+0"), Some(0));
    assert_eq!(parse_port("+"), None);
    assert_eq!(parse_port("8 443"), None);
    assert_eq!(parse_port(""), None);
}

#[test]
fn injection_flags_follow_the_windows_constants() {
    assert_eq!(mouse_button_flags(MouseButton::Left, true), 0x0002);
    assert_eq!(mouse_button_flags(MouseButton::Left, false), 0x0004);
    assert_eq!(mouse_button_flags(MouseButton::Right, true), 0x0008);
    assert_eq!(mouse_button_flags(MouseButton::Right, false), 0x0010);
    assert_eq!(mouse_button_flags(MouseButton::Middle, true), 0x0020);
    assert_eq!(mouse_button_flags(MouseButton::Middle, false), 0x0040);
    assert_eq!(key_event_flags(true), 0);
    assert_eq!(key_event_flags(false), 0x0002);
    assert_eq!(MOUSE_MOVE_FLAGS, 0x8001);
}

#[test]
fn queued_pointer_moves_collapse_to_the_latest() {
    assert_eq!(coalesce_pointer_moves(&[]), Vec::<bool>::new());
    assert_eq!(coalesce_pointer_moves(&[true, true, true]), vec![false, false, true]);
    assert_eq!(
        coalesce_pointer_moves(&[true, true, false, true, false, false]),
        vec![false, true, true, true, true, true]
    );
    assert_eq!(coalesce_pointer_moves(&[false, true]), vec![true, true]);
}

#[test]
fn display_log_holds_the_last_hundred_of_any_run() {
    let mut log = ViewerLogger::new("v.log".to_string());
    for i in 0..99 {
        log.log_at("t", "INFO", &format!("a{}", i));
    }
    assert_eq!(log.get_ui_logs().len(), 99);
    log.info("b");
    assert_eq!(log.get_ui_logs().len(), 100);
    assert_eq!(log.get_ui_logs()[0], "[t] [INFO] a0");
    log.warn("c");
    let lines = log.get_ui_logs();
    assert_eq!(lines.len(), 100);
    assert_eq!(lines[0], "[t] [INFO] a1");
    assert!(lines[99].ends_with("] [WARN] c"));
}

#[test]
fn logger_keeps_its_file_across_calls() {
    let mut log = ViewerLogger::new("/var/log/arclink_viewer.log".to_string());
    log.info("a");
    log.warn("b");
    log.clear();
    log.error("c");
    log.log_at("t", "INFO", "d");
    assert_eq!(log.file_path_str(), "/var/log/arclink_viewer.log");
    assert_eq!(log.get_ui_logs().len(), 2);
}
