//! Control-channel messages and the video packet header, and the split of an
//! encoded video frame into MTU-sized UDP fragments.
use vstd::prelude::*;

use crate::session::DisconnectReason;

verus! {

/// Greeting that names the protocol version and the sender.
#[derive(Debug, Clone)]
pub struct HelloMessage {
    pub protocol_version: String,
    pub sender_id: String,
}

/// A viewer's request for a session. `request_time` counts microseconds
/// since the Unix epoch (UTC).
#[derive(Debug)]
pub struct SessionRequest {
    pub session_id: String,
    pub viewer_name: String,
    pub viewer_ip: String,
    pub request_time: i64,
    pub required_fps: u32,
    pub width: u32,
    pub height: u32,
}

impl Clone for SessionRequest {
    fn clone(&self) -> (r: Self)
        ensures
            r == *self,
    {
        SessionRequest {
            session_id: self.session_id.clone(),
            viewer_name: self.viewer_name.clone(),
            viewer_ip: self.viewer_ip.clone(),
            request_time: self.request_time,
            required_fps: self.required_fps,
            width: self.width,
            height: self.height,
        }
    }
}

/// The host's acceptance of a request. `accepted_time` counts microseconds
/// since the Unix epoch (UTC).
#[derive(Debug)]
pub struct SessionAccept {
    pub session_id: String,
    pub host_name: String,
    pub accepted_time: i64,
    pub control_port: u16,
    pub video_port: u16,
}

impl Clone for SessionAccept {
    fn clone(&self) -> (r: Self)
        ensures
            r == *self,
    {
        SessionAccept {
            session_id: self.session_id.clone(),
            host_name: self.host_name.clone(),
            accepted_time: self.accepted_time,
            control_port: self.control_port,
            video_port: self.video_port,
        }
    }
}

/// The host's refusal of a request.
#[derive(Debug, Clone)]
pub struct SessionReject {
    pub session_id: String,
    pub reason: String,
}

/// Liveness probe sent by the viewer.
#[derive(Debug, Clone, Copy, PartialEq, Eq, Structural)]
pub struct Heartbeat {
    pub timestamp_us: u64,
    pub sequence: u64,
}

/// The host's answer to a heartbeat; it echoes the probe's fields.
#[derive(Debug, Clone, Copy, PartialEq, Eq, Structural)]
pub struct HeartbeatAck {
    pub timestamp_us: u64,
    pub sequence: u64,
}

/// Notice that a side closes the session.
#[derive(Debug, Clone)]
pub struct DisconnectMessage {
    pub reason: DisconnectReason,
    pub message: String,
}

/// A protocol-level error report.
#[derive(Debug, Clone)]
pub struct ProtocolErrorMessage {
    pub code: u16,
    pub description: String,
}

/// Header of one UDP video fragment.
#[derive(Debug, Clone, Copy, PartialEq, Eq, Structural)]
pub struct VideoPacketHeader {
    pub magic: u32,
    pub protocol_version: u16,
    pub session_id: u128,
    pub frame_id: u64,
    pub capture_timestamp_us: u64,
    pub fragment_index: u16,
    pub fragment_count: u16,
    pub payload_len: u16,
    pub flags: u16,
}

/// Magic number of video fragments ("ARCL").
pub const VIDEO_MAGIC: u32 = 0x4152434C;

/// Largest payload of one video fragment, chosen to stay under the MTU.
pub const VIDEO_CHUNK_SIZE: usize = 1100;

/// Session id written into every video fragment header.
pub const VIDEO_STREAM_SESSION_ID: u128 = 12345;

/// One fragment of an encoded video frame, ready to be sent.
#[derive(Debug)]
pub struct VideoFragment {
    pub header: VideoPacketHeader,
    pub payload: Vec<u8>,
}

/// Number of fragments a frame of `len` bytes is cut into.
pub open spec fn spec_fragment_total(len: nat) -> nat {
    (len + 1099) / 1100
}

/// Bytes carried by fragment `i` of `payload`.
pub open spec fn spec_chunk(payload: Seq<u8>, i: int) -> Seq<u8> {
    let start = i * 1100;
    let end = if start + 1100 <= payload.len() { start + 1100 } else { payload.len() as int };
    payload.subrange(start, end)
}

/// Header of fragment `i` of a frame of `len` bytes.
pub open spec fn spec_fragment_header(frame_id: u64, len: nat, i: int, timestamp_us: u64) -> VideoPacketHeader {
    let total = spec_fragment_total(len);
    VideoPacketHeader {
        magic: VIDEO_MAGIC,
        protocol_version: 1,
        session_id: VIDEO_STREAM_SESSION_ID,
        frame_id: frame_id,
        capture_timestamp_us: timestamp_us,
        fragment_index: i as u16,
        fragment_count: total as u16,
        payload_len: spec_chunk_len(len, i) as u16,
        flags: if i == total - 1 { 1 } else { 0 },
    }
}

/// Length of fragment `i` of a frame of `len` bytes.
pub open spec fn spec_chunk_len(len: nat, i: int) -> int {
    if i * 1100 + 1100 <= len { 1100 } else { len - i * 1100 }
}

/// Whether `frags` is the fragmentation of `payload` as frame `frame_id`.
pub open spec fn is_fragmentation(frags: Seq<VideoFragment>, frame_id: u64, payload: Seq<u8>, timestamp_us: u64) -> bool {
    &&& frags.len() == spec_fragment_total(payload.len())
    &&& forall|i: int| 0 <= i < frags.len() ==> {
        &&& (#[trigger] frags[i]).header == spec_fragment_header(frame_id, payload.len(), i, timestamp_us)
        &&& frags[i].payload@ == spec_chunk(payload, i)
    }
}

/// Every fragment announces in its header exactly the number of bytes it
/// carries; each carries at least one byte and at most `VIDEO_CHUNK_SIZE`,
/// and all but the last carry `VIDEO_CHUNK_SIZE`.
pub proof fn lemma_fragments_announce_their_length(
    frags: Seq<VideoFragment>,
    frame_id: u64,
    payload: Seq<u8>,
    timestamp_us: u64,
)
    requires
        is_fragmentation(frags, frame_id, payload, timestamp_us),
    ensures
        forall|i: int| 0 <= i < frags.len() ==> {
            &&& (#[trigger] frags[i]).header.payload_len == frags[i].payload@.len()
            &&& 0 < frags[i].payload@.len() <= VIDEO_CHUNK_SIZE
            &&& i < frags.len() - 1 ==> frags[i].payload@.len() == VIDEO_CHUNK_SIZE
        },
{
    let len = payload.len();
    assert forall|i: int| 0 <= i < frags.len() implies {
        &&& (#[trigger] frags[i]).header.payload_len == frags[i].payload@.len()
        &&& 0 < frags[i].payload@.len() <= VIDEO_CHUNK_SIZE
        &&& i < frags.len() - 1 ==> frags[i].payload@.len() == VIDEO_CHUNK_SIZE
    } by {
        let n = spec_fragment_total(len);
        assert(i * 1100 < len) by (nonlinear_arith)
            requires
                0 <= i < n,
                n == (len + 1099) / 1100,
        ;
        assert(i < n - 1 ==> i * 1100 + 1100 <= len) by (nonlinear_arith)
            requires
                0 <= i,
                n == (len + 1099) / 1100,
        ;
        assert(frags[i].payload@ == spec_chunk(payload, i));
        assert(frags[i].header == spec_fragment_header(frame_id, len, i, timestamp_us));
    }
}

/// Cuts an encoded frame into fragments of at most `VIDEO_CHUNK_SIZE` bytes,
/// in order; the last one carries flag 1. An empty frame gives no fragment.
pub fn fragment_frame(frame_id: u64, payload: &[u8], capture_timestamp_us: u64) -> (r: Vec<VideoFragment>)
    ensures
        is_fragmentation(r@, frame_id, payload@, capture_timestamp_us),
        forall|i: int| 0 <= i < r@.len() ==> (#[trigger] r@[i]).header.payload_len == r@[i].payload@.len(),
{
    let len = payload.len();
    let total: usize = len / VIDEO_CHUNK_SIZE + if len % VIDEO_CHUNK_SIZE != 0 { 1 } else { 0 };
    assert(total == spec_fragment_total(len as nat));
    let mut out: Vec<VideoFragment> = Vec::new();
    let mut index: usize = 0;
    while index < total
        invariant
            total == spec_fragment_total(len as nat),
            len == payload@.len(),
            index <= total,
            out@.len() == index,
            forall|i: int| 0 <= i < index ==> {
                &&& (#[trigger] out@[i]).header == spec_fragment_header(frame_id, len as nat, i, capture_timestamp_us)
                &&& out@[i].payload@ == spec_chunk(payload@, i)
            },
        decreases total - index,
    {
        let start = index * VIDEO_CHUNK_SIZE;
        let end = if len - start >= VIDEO_CHUNK_SIZE { start + VIDEO_CHUNK_SIZE } else { len };
        let chunk = &payload[start..end];
        let mut bytes: Vec<u8> = Vec::with_capacity(end - start);
        bytes.extend_from_slice(chunk);
        assert(bytes@ =~= spec_chunk(payload@, index as int));
        let header = VideoPacketHeader {
            magic: VIDEO_MAGIC,
            protocol_version: 1,
            session_id: VIDEO_STREAM_SESSION_ID,
            frame_id,
            capture_timestamp_us,
            fragment_index: index as u16,
            fragment_count: total as u16,
            payload_len: (end - start) as u16,
            flags: if index == total - 1 { 1 } else { 0 },
        };
        out.push(VideoFragment { header, payload: bytes });
        index = index + 1;
    }
    proof {
        lemma_fragments_announce_their_length(out@, frame_id, payload@, capture_timestamp_us);
    }
    out
}

} // verus!
