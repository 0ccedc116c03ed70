use arclink::capture::FallbackCapturer;
use arclink::protocol::{fragment_frame, VideoPacketHeader, VIDEO_MAGIC};
use arclink::render::{decode_frame, CompletedFrame, DecodedFrame, VideoFrameBuffer};

fn header(frame_id: u64, index: u16, count: u16) -> VideoPacketHeader {
    VideoPacketHeader {
        magic: VIDEO_MAGIC,
        protocol_version: 1,
        session_id: 12345,
        frame_id,
        capture_timestamp_us: 0,
        fragment_index: index,
        fragment_count: count,
        payload_len: 0,
        flags: 0,
    }
}

#[test]
fn fragment_frame_splits_into_mtu_chunks() {
    let payload: Vec<u8> = (0..2500u32).map(|i| (i % 251) as u8).collect();
    let frags = fragment_frame(7, &payload, 99);
    assert_eq!(frags.len(), 3);
    assert_eq!(frags[0].payload.len(), 1100);
    assert_eq!(frags[1].payload.len(), 1100);
    assert_eq!(frags[2].payload.len(), 300);
    assert_eq!(frags[2].header.payload_len, 300);
    assert_eq!(frags[0].header.flags, 0);
    assert_eq!(frags[2].header.flags, 1);
    for (i, f) in frags.iter().enumerate() {
        assert_eq!(f.header.fragment_index, i as u16);
        assert_eq!(f.header.fragment_count, 3);
        assert_eq!(f.header.frame_id, 7);
        assert_eq!(f.header.magic, 0x4152434C);
        assert_eq!(f.header.session_id, 12345);
        assert_eq!(f.header.capture_timestamp_us, 99);
    }
    assert_eq!(&frags[1].payload[..], &payload[1100..2200]);
}

#[test]
fn fragment_frame_of_empty_payload_is_empty() {
    assert!(fragment_frame(1, &[], 0).is_empty());
    assert_eq!(fragment_frame(1, &[5u8; 1100], 0).len(), 1);
    assert_eq!(fragment_frame(1, &[5u8; 1101], 0).len(), 2);
}

#[test]
fn fragments_reassemble_to_the_frame() {
    let payload: Vec<u8> = (0..5000u32).map(|i| (i * 7 % 256) as u8).collect();
    let frags = fragment_frame(42, &payload, 0);
    let mut buf = VideoFrameBuffer::new();
    let mut done = None;
    for (i, f) in frags.iter().enumerate() {
        let r = buf.handle_packet(&f.header, &f.payload, 10);
        if i + 1 < frags.len() {
            assert!(r.is_none());
        } else {
            done = r;
        }
    }
    let done = done.expect("last fragment completes the frame");
    assert_eq!(done.frame_id, 42);
    assert_eq!(done.bytes, payload);
}

#[test]
fn fragments_out_of_order_still_reassemble() {
    let mut buf = VideoFrameBuffer::new();
    assert!(buf.handle_packet(&header(3, 1, 2), &[3, 4], 0).is_none());
    let done = buf.handle_packet(&header(3, 0, 2), &[1, 2], 5).unwrap();
    assert_eq!(done.bytes, vec![1, 2, 3, 4]);
}

#[test]
fn stale_reassembly_is_dropped_after_timeout() {
    let mut buf = VideoFrameBuffer::new();
    assert!(buf.handle_packet(&header(3, 0, 2), &[1, 2], 0).is_none());
    // 100 ms later the partial frame is gone: the second fragment starts over.
    assert!(buf.handle_packet(&header(3, 1, 2), &[3, 4], 100).is_none());
    // within 100 ms of that, the first fragment completes it again
    let done = buf.handle_packet(&header(3, 0, 2), &[1, 2], 199).unwrap();
    assert_eq!(done.bytes, vec![1, 2, 3, 4]);
}

#[test]
fn reassembly_within_timeout_survives() {
    let mut buf = VideoFrameBuffer::new();
    assert!(buf.handle_packet(&header(3, 0, 2), &[1], 0).is_none());
    assert_eq!(buf.handle_packet(&header(3, 1, 2), &[2], 99).unwrap().bytes, vec![1, 2]);
}

#[test]
fn duplicate_index_beyond_count_blocks_completion() {
    let mut buf = VideoFrameBuffer::new();
    assert!(buf.handle_packet(&header(4, 5, 2), &[9], 0).is_none());
    // two fragments held, but index 1 is missing
    assert!(buf.handle_packet(&header(4, 0, 2), &[1], 0).is_none());
}

#[test]
fn older_frames_are_dropped_after_a_newer_decode() {
    let mut buf = VideoFrameBuffer::new();
    let kept = buf.store_decoded_frame(DecodedFrame { width: 1, height: 1, rgba_bytes: vec![0, 0, 0, 255], frame_id: 10 });
    assert!(kept);
    assert!(buf.handle_packet(&header(9, 0, 1), &[1], 0).is_none());
    assert_eq!(buf.handle_packet(&header(10, 0, 1), &[1], 0).unwrap().bytes, vec![1]);
}

#[test]
fn decoded_slot_keeps_the_newest_frame() {
    let mut buf = VideoFrameBuffer::new();
    assert!(buf.take_latest_frame().is_none());
    assert!(buf.store_decoded_frame(DecodedFrame { width: 2, height: 1, rgba_bytes: vec![1; 8], frame_id: 5 }));
    assert!(!buf.store_decoded_frame(DecodedFrame { width: 2, height: 1, rgba_bytes: vec![2; 8], frame_id: 4 }));
    assert!(!buf.store_decoded_frame(DecodedFrame { width: 2, height: 1, rgba_bytes: vec![3; 8], frame_id: 5 }));
    let f = buf.take_latest_frame().unwrap();
    assert_eq!(f.frame_id, 5);
    assert_eq!(f.rgba_bytes, vec![1; 8]);
    buf.clear();
    assert!(buf.take_latest_frame().is_none());
    assert!(buf.store_decoded_frame(DecodedFrame { width: 2, height: 1, rgba_bytes: vec![2; 8], frame_id: 4 }));
}

#[test]
fn decode_frame_reads_a_jpeg() {
    let mut cap = FallbackCapturer::new();
    cap.start().unwrap();
    let frame = cap.next_frame().unwrap();
    let decoded = decode_frame(&CompletedFrame { frame_id: 77, bytes: frame.bytes }).expect("a JPEG decodes");
    assert_eq!(decoded.width, 1280);
    assert_eq!(decoded.height, 720);
    assert_eq!(decoded.frame_id, 77);
    assert_eq!(decoded.rgba_bytes.len(), 1280 * 720 * 4);
}

#[test]
fn decode_frame_rejects_garbage() {
    assert!(decode_frame(&CompletedFrame { frame_id: 1, bytes: vec![1, 2, 3, 4, 5] }).is_none());
}

#[test]
fn newer_frame_discards_older_partial_frames() {
    let mut buf = VideoFrameBuffer::new();
    // frames 8 and 9 are partly received
    assert!(buf.handle_packet(&header(8, 0, 2), &[8], 0).is_none());
    assert!(buf.handle_packet(&header(9, 0, 2), &[9], 0).is_none());
    // frame 10 starts: 8 and 9 are discarded at once
    assert!(buf.handle_packet(&header(10, 0, 2), &[10], 1).is_none());
    // their missing fragments complete nothing any more
    assert!(buf.handle_packet(&header(8, 1, 2), &[8], 2).is_none());
    assert!(buf.handle_packet(&header(9, 1, 2), &[9], 2).is_none());
    assert!(buf.handle_packet(&header(8, 0, 2), &[8], 3).is_none());
    // only the newest frame is assembled
    let done = buf.handle_packet(&header(10, 1, 2), &[11], 3).unwrap();
    assert_eq!(done.frame_id, 10);
    assert_eq!(done.bytes, vec![10, 11]);
}

#[test]
fn a_newer_frame_may_overtake_and_complete_first() {
    let mut buf = VideoFrameBuffer::new();
    assert!(buf.handle_packet(&header(20, 0, 2), &[1], 0).is_none());
    assert_eq!(buf.handle_packet(&header(21, 0, 1), &[7], 0).unwrap().bytes, vec![7]);
    assert!(buf.handle_packet(&header(20, 1, 2), &[2], 0).is_none());
}

#[test]
fn clear_lets_a_new_session_start_over() {
    let mut buf = VideoFrameBuffer::new();
    assert_eq!(buf.handle_packet(&header(500, 0, 1), &[1], 0).unwrap().frame_id, 500);
    assert!(buf.handle_packet(&header(1, 0, 1), &[1], 0).is_none());
    buf.clear();
    assert_eq!(buf.handle_packet(&header(1, 0, 1), &[2], 0).unwrap().bytes, vec![2]);
}

#[test]
fn fragments_in_reverse_order_reassemble() {
    let payload: Vec<u8> = (0..4500u32).map(|i| (i % 253) as u8).collect();
    let frags = fragment_frame(9, &payload, 0);
    assert_eq!(frags.len(), 5);
    let mut buf = VideoFrameBuffer::new();
    for (i, f) in frags.iter().rev().enumerate() {
        let r = buf.handle_packet(&f.header, &f.payload, 0);
        if i + 1 < frags.len() {
            assert!(r.is_none());
        } else {
            assert_eq!(r.unwrap().bytes, payload);
        }
    }
}

#[test]
fn fragments_in_shuffled_order_reassemble() {
    let payload: Vec<u8> = (0..5000u32).map(|i| (i * 13 % 256) as u8).collect();
    let frags = fragment_frame(3, &payload, 0);
    let order = [2usize, 4, 0, 3, 1];
    let mut buf = VideoFrameBuffer::new();
    for (k, &i) in order.iter().enumerate() {
        let r = buf.handle_packet(&frags[i].header, &frags[i].payload, 0);
        if k + 1 < order.len() {
            assert!(r.is_none());
        } else {
            assert_eq!(r.unwrap().bytes, payload);
        }
    }
}
