use arclink::capture::{bgra_to_rgb, FallbackCapturer, WindowsGdiCapturer};
use arclink::errors::CaptureError;

#[test]
fn fallback_capturer_must_be_started() {
    let mut cap = FallbackCapturer::new();
    match cap.next_frame() {
        Err(CaptureError::CaptureFailed(m)) => assert_eq!(m, "Capturer not started"),
        _ => panic!("a stopped capturer fails"),
    }
}

#[test]
fn fallback_capturer_produces_numbered_jpeg_frames() {
    let mut cap = FallbackCapturer::new();
    cap.start().unwrap();
    let f1 = cap.next_frame().unwrap();
    let f2 = cap.next_frame().unwrap();
    assert_eq!(f1.frame_sequence, 1);
    assert_eq!(f2.frame_sequence, 2);
    assert_eq!((f1.width, f1.height), (1280, 720));
    assert_eq!(f1.pixel_format, "Development Fallback JPEG");
    assert_eq!(&f1.bytes[0..2], &[0xFF, 0xD8]);
    assert_ne!(f1.bytes, f2.bytes);
    cap.stop();
    assert!(cap.next_frame().is_err());
}

#[test]
fn fallback_source_info() {
    let info = FallbackCapturer::new().source_info();
    assert_eq!(info.name, "Fallback Software Capturer");
    assert_eq!((info.width, info.height), (1280, 720));
}

#[test]
fn bgra_pixels_become_rgb() {
    assert_eq!(bgra_to_rgb(&[1, 2, 3, 4, 5, 6, 7, 8]), vec![3, 2, 1, 7, 6, 5]);
    assert_eq!(bgra_to_rgb(&[1, 2, 3]), Vec::<u8>::new());
}

#[test]
fn gdi_capturer_encodes_grabbed_pixels() {
    let mut cap = WindowsGdiCapturer::new(16, 8);
    assert!(cap.begin_frame().is_err());
    cap.start().unwrap();
    assert!(cap.begin_frame().is_ok());
    let pixels = vec![200u8; 16 * 8 * 4];
    let frame = cap.finish_frame(&pixels).unwrap();
    assert_eq!(frame.frame_sequence, 1);
    assert_eq!(frame.pixel_format, "JPEG");
    assert_eq!(&frame.bytes[0..2], &[0xFF, 0xD8]);
    assert_eq!(cap.source_info().name, "Native Windows GDI Capturer");
}

#[test]
fn gdi_capturer_reports_encoder_failure() {
    // JPEG cannot hold images wider than 65535 pixels.
    let mut cap = WindowsGdiCapturer::new(70000, 1);
    cap.start().unwrap();
    let pixels = vec![0u8; 70000 * 4];
    match cap.finish_frame(&pixels) {
        Err(CaptureError::CaptureFailed(m)) => assert_eq!(m, "JPEG encoding of screen frame failed"),
        _ => panic!("the encoder refuses the width"),
    }
    // the failed frame is not counted
    let mut small = WindowsGdiCapturer::new(8, 8);
    small.start().unwrap();
    assert_eq!(small.finish_frame(&vec![0u8; 8 * 8 * 4]).unwrap().frame_sequence, 1);
}
