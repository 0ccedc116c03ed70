//! Viewer-side reassembly of UDP video fragments into whole encoded frames,
//! decoding of completed frames, and the one-slot store of the newest
//! decoded frame. Frame leaping: once packets of a frame arrive, every partly
//! received older frame is discarded and later packets of older frames are
//! ignored, so only the newest frame is assembled and decoded; an older
//! decoded frame never replaces a newer one.
use std::collections::HashMap;
use vstd::prelude::*;
use vstd::std_specs::iter::IteratorSpec;

use crate::protocol::{is_fragmentation, spec_chunk, spec_fragment_total, VideoFragment, VideoPacketHeader};

verus! {

broadcast use vstd::std_specs::hash::group_hash_axioms;

/// Age in milliseconds from which a partly received frame is given up.
pub const REASSEMBLY_TIMEOUT_MS: u64 = 100;

/// The fragments received so far of one frame. `timestamp` is the time, in
/// milliseconds, at which its first fragment arrived; `count` is the number
/// of fragments announced by that first fragment.
pub struct FrameFragment {
    pub timestamp: u64,
    pub fragments: HashMap<u16, Vec<u8>>,
    pub count: u16,
}

/// A decoded frame: RGBA8 pixels, row by row.
#[derive(Debug)]
pub struct DecodedFrame {
    pub width: u32,
    pub height: u32,
    pub rgba_bytes: Vec<u8>,
    pub frame_id: u64,
}

/// The plain contents of a decoded frame.
pub struct DecodedFrameView {
    pub width: u32,
    pub height: u32,
    pub rgba: Seq<u8>,
    pub frame_id: u64,
}

impl View for DecodedFrame {
    type V = DecodedFrameView;

    open spec fn view(&self) -> DecodedFrameView {
        DecodedFrameView {
            width: self.width,
            height: self.height,
            rgba: self.rgba_bytes@,
            frame_id: self.frame_id,
        }
    }
}

impl Clone for DecodedFrame {
    fn clone(&self) -> (r: Self)
        ensures
            r@ == self@,
    {
        let mut rgba_bytes: Vec<u8> = Vec::with_capacity(self.rgba_bytes.len());
        rgba_bytes.extend_from_slice(self.rgba_bytes.as_slice());
        assert(rgba_bytes@ =~= self.rgba_bytes@);
        DecodedFrame { width: self.width, height: self.height, rgba_bytes, frame_id: self.frame_id }
    }
}

/// A frame whose fragments have all arrived: its encoded bytes in order.
#[derive(Debug)]
pub struct CompletedFrame {
    pub frame_id: u64,
    pub bytes: Vec<u8>,
}

/// The plain contents of a partly received frame.
pub struct PendingFrame {
    pub timestamp: u64,
    pub count: u16,
    pub fragments: Map<u16, Seq<u8>>,
}

impl FrameFragment {
    pub open spec fn pending(&self) -> PendingFrame {
        PendingFrame {
            timestamp: self.timestamp,
            count: self.count,
            fragments: self.fragments@.map_values(|v: Vec<u8>| v@),
        }
    }
}

/// Whether a reassembly started at `timestamp` is too old at `now`.
pub open spec fn is_stale(timestamp: u64, now: u64) -> bool {
    now >= timestamp && now - timestamp >= REASSEMBLY_TIMEOUT_MS
}

/// The reassemblies that survive the clean-up at `now`.
pub open spec fn purge_stale(p: Map<u64, PendingFrame>, now: u64) -> Map<u64, PendingFrame> {
    Map::new(|k: u64| p.contains_key(k) && !is_stale(p[k].timestamp, now), |k: u64| p[k])
}

/// The reassembly of `h.frame_id` once `payload` is filed under
/// `h.fragment_index`; a frame seen for the first time starts at `now` with
/// the count that `h` announces.
pub open spec fn with_fragment(p: Map<u64, PendingFrame>, h: VideoPacketHeader, payload: Seq<u8>, now: u64) -> PendingFrame {
    let base = if p.contains_key(h.frame_id) {
        p[h.frame_id]
    } else {
        PendingFrame { timestamp: now, count: h.fragment_count, fragments: Map::empty() }
    };
    PendingFrame {
        timestamp: base.timestamp,
        count: base.count,
        fragments: base.fragments.insert(h.fragment_index, payload),
    }
}

/// Whether every fragment index below the announced count has arrived.
pub open spec fn all_fragments_present(f: PendingFrame) -> bool {
    forall|i: u16| i < f.count ==> #[trigger] f.fragments.contains_key(i)
}

/// The fragments `0 .. n` joined in index order.
pub open spec fn assemble(frags: Map<u16, Seq<u8>>, n: nat) -> Seq<u8>
    decreases n,
{
    if n == 0 {
        Seq::empty()
    } else {
        assemble(frags, (n - 1) as nat) + frags[(n - 1) as u16]
    }
}

/// Whether a reassembly is finished: as many fragments as announced, and
/// all the announced indices among them.
pub open spec fn is_complete(f: PendingFrame) -> bool {
    f.fragments.len() == f.count as nat && all_fragments_present(f)
}

/// The reassemblies of frames from `fid` on: frame leaping drops every
/// partly received frame older than the one a packet belongs to.
pub open spec fn drop_older(p: Map<u64, PendingFrame>, fid: u64) -> Map<u64, PendingFrame> {
    Map::new(|k: u64| p.contains_key(k) && k >= fid, |k: u64| p[k])
}

/// Whether a packet of frame `fid` comes too late: a newer frame has been
/// decoded already, or packets of a newer frame have been accepted.
pub open spec fn is_superseded(fid: u64, newest: Option<u64>, latest: Option<u64>) -> bool {
    ||| (latest matches Some(l) && fid < l)
    ||| (newest matches Some(n) && fid < n)
}

/// The effect of one video packet: the reassemblies kept afterwards, the
/// newest frame id accepted so far, and the encoded frame that the packet
/// completed, if any. Stale reassemblies are dropped first. A packet of a
/// frame older than the newest decoded one, or older than the newest frame
/// accepted, is ignored. Otherwise its frame becomes the newest accepted
/// one, every reassembly of an older frame is dropped, and the fragment is
/// filed.
pub open spec fn spec_handle_packet(
    p: Map<u64, PendingFrame>,
    newest: Option<u64>,
    latest: Option<u64>,
    h: VideoPacketHeader,
    payload: Seq<u8>,
    now: u64,
) -> (Map<u64, PendingFrame>, Option<u64>, Option<Seq<u8>>) {
    let p1 = purge_stale(p, now);
    if is_superseded(h.frame_id, newest, latest) {
        (p1, newest, None)
    } else {
        let p2 = drop_older(p1, h.frame_id);
        let e = with_fragment(p2, h, payload, now);
        if is_complete(e) {
            (p2.remove(h.frame_id), Some(h.frame_id), Some(assemble(e.fragments, e.count as nat)))
        } else {
            (p2.insert(h.frame_id, e), Some(h.frame_id), None)
        }
    }
}

/// The bytes of a completed frame, if there is one.
pub open spec fn completed_bytes(c: Option<CompletedFrame>) -> Option<Seq<u8>> {
    match c {
        Some(f) => Some(f.bytes@),
        None => None,
    }
}

/// What decoding `bytes` as an image gives: width, height and RGBA8 pixels,
/// or nothing where the decoder does not accept the bytes. The crate is built
/// with JPEG as its only image format and with `jpeg-decoder`'s
/// `platform_independent` feature, which turns off the decoder's run-time
/// choice of SIMD code, so the result is a function of the bytes alone.
pub uninterp spec fn decoded_rgba(bytes: Seq<u8>) -> Option<(u32, u32, Seq<u8>)>;

/// Calls `image::load_from_memory` and converts the image with
/// `DynamicImage::to_rgba8`. Claimed: the result is `decoded_rgba` of the
/// bytes, and a decoded image holds four bytes per pixel, `4 * w * h` in all,
/// as `to_rgba8` always allocates; nothing is claimed about which bytes
/// decode or to what. Malformed input comes back as an error: the decoder's
/// `panic!` arms sit behind its own checks of the component count and sample
/// precision.
#[verifier::external_body]
fn load_rgba(bytes: &[u8]) -> (r: Option<(u32, u32, Vec<u8>)>)
    ensures
        match r {
            Some((w, h, px)) => decoded_rgba(bytes@) == Some((w, h, px@)) && px@.len() == 4 * w * h,
            None => decoded_rgba(bytes@) is None,
        },
{
    match image::load_from_memory(bytes) {
        Ok(img) => Some((img.width(), img.height(), img.to_rgba8().into_raw())),
        Err(_) => None,
    }
}

/// Decodes a completed frame into RGBA8 pixels; `None` where the bytes are
/// no image the decoder reads.
pub fn decode_frame(frame: &CompletedFrame) -> (r: Option<DecodedFrame>)
    ensures
        match decoded_rgba(frame.bytes@) {
            Some((w, h, px)) => r matches Some(d) && d@ == (DecodedFrameView {
                width: w,
                height: h,
                rgba: px,
                frame_id: frame.frame_id,
            }),
            None => r is None,
        },
        r matches Some(d) ==> d.rgba_bytes@.len() == 4 * d.width * d.height,
{
    match load_rgba(frame.bytes.as_slice()) {
        Some((width, height, rgba_bytes)) => Some(
            DecodedFrame { width, height, rgba_bytes, frame_id: frame.frame_id },
        ),
        None => None,
    }
}

/// Fragment reassembly and the slot of the newest decoded frame.
pub struct VideoFrameBuffer {
    active_reassembly: HashMap<u64, FrameFragment>,
    newest_frame_id: Option<u64>,
    latest_decoded_frame: Option<DecodedFrame>,
}

/// Whether the reassembly of frame `k`, started at `timestamp`, goes in the
/// clean-up at `now` that also drops the frames below `below`.
spec fn is_dropped(k: u64, timestamp: u64, now: u64, below: Option<u64>) -> bool {
    is_stale(timestamp, now) || (below matches Some(b) && k < b)
}

/// The reassemblies left by that clean-up.
spec fn pruned(p: Map<u64, PendingFrame>, now: u64, below: Option<u64>) -> Map<u64, PendingFrame> {
    match below {
        Some(b) => drop_older(purge_stale(p, now), b),
        None => purge_stale(p, now),
    }
}

/// Joins fragments `0 .. count` in order, or gives `None` where one of them
/// is missing.
fn assemble_fragments(frags: &HashMap<u16, Vec<u8>>, count: u16) -> (r: Option<Vec<u8>>)
    ensures
        match r {
            Some(v) => (forall|i: u16| i < count ==> #[trigger] frags@.contains_key(i))
                && v@ == assemble(frags@.map_values(|x: Vec<u8>| x@), count as nat),
            None => !(forall|i: u16| i < count ==> #[trigger] frags@.contains_key(i)),
        },
{
    let ghost fv = frags@.map_values(|x: Vec<u8>| x@);
    let mut complete: Vec<u8> = Vec::new();
    let mut i: u16 = 0;
    while i < count
        invariant
            fv == frags@.map_values(|x: Vec<u8>| x@),
            i <= count,
            forall|j: u16| j < i ==> #[trigger] frags@.contains_key(j),
            complete@ == assemble(fv, i as nat),
        decreases count - i,
    {
        match frags.get(&i) {
            Some(chunk) => {
                let ghost before = complete@;
                complete.extend_from_slice(chunk.as_slice());
                assert(fv[i] == chunk@);
                assert(complete@ =~= before + fv[i]);
                assert(assemble(fv, (i + 1) as nat) == assemble(fv, i as nat) + fv[i]);
            },
            None => {
                return None;
            },
        }
        i = i + 1;
    }
    Some(complete)
}

impl VideoFrameBuffer {
    /// The partly received frames, by frame id.
    pub closed spec fn pending_frames(&self) -> Map<u64, PendingFrame> {
        self.active_reassembly@.map_values(|f: FrameFragment| f.pending())
    }

    /// The newest decoded frame kept, if any.
    pub closed spec fn latest(&self) -> Option<DecodedFrameView> {
        match self.latest_decoded_frame {
            Some(f) => Some(f@),
            None => None,
        }
    }

    /// The id of the newest frame whose packets were accepted, if any.
    pub closed spec fn newest(&self) -> Option<u64> {
        self.newest_frame_id
    }

    /// The id of the newest decoded frame kept, if any.
    pub open spec fn latest_frame_id(&self) -> Option<u64> {
        match self.latest() {
            Some(f) => Some(f.frame_id),
            None => None,
        }
    }

    pub fn new() -> (r: Self)
        ensures
            r.pending_frames() == Map::<u64, PendingFrame>::empty(),
            r.newest() is None,
            r.latest() is None,
    {
        let r = VideoFrameBuffer { active_reassembly: HashMap::new(), newest_frame_id: None, latest_decoded_frame: None };
        assert(r.pending_frames() =~= Map::<u64, PendingFrame>::empty());
        r
    }

    /// Drops the reassemblies that are stale at `now_ms`, and where `below`
    /// is given, those of the frames below it.
    fn drop_reassemblies(&mut self, now_ms: u64, below: Option<u64>)
        ensures
            final(self).pending_frames() == pruned(old(self).pending_frames(), now_ms, below),
            final(self).newest_frame_id == old(self).newest_frame_id,
            final(self).latest_decoded_frame == old(self).latest_decoded_frame,
    {
        let ghost all = self.active_reassembly@;
        let mut doomed: Vec<u64> = Vec::new();
        {
            let m = &self.active_reassembly;
            for k in it: m.keys()
                invariant
                    m@ == all,
                    forall|j: int| 0 <= j < doomed@.len() ==> all.contains_key(#[trigger] doomed@[j])
                        && is_dropped(doomed@[j], all[doomed@[j]].timestamp, now_ms, below),
                    forall|j: int| 0 <= j < it.index() && all.contains_key(*it.seq()[j])
                        && is_dropped(*it.seq()[j], all[*it.seq()[j]].timestamp, now_ms, below)
                        ==> doomed@.contains(*#[trigger] it.seq()[j]),
                    it.seq() == vstd::std_specs::hash::spec_keys_iter(m).remaining(),
                    it.index() == it.seq().len() ==> forall|k: u64| all.contains_key(k) && is_dropped(
                        k,
                        all[k].timestamp,
                        now_ms,
                        below,
                    ) ==> doomed@.contains(k),
            {
                let ghost old_doomed = doomed@;
                assert(k == it.seq()[it.index()]);
                match m.get(k) {
                    Some(f) => {
                        let stale = f.timestamp <= now_ms && now_ms - f.timestamp >= REASSEMBLY_TIMEOUT_MS;
                        let older = match below {
                            Some(b) => *k < b,
                            None => false,
                        };
                        if stale || older {
                            doomed.push(*k);
                        }
                    },
                    None => {},
                }
                assert forall|x: u64| old_doomed.contains(x) implies doomed@.contains(x) by {
                    let i = choose|i: int| 0 <= i < old_doomed.len() && old_doomed[i] == x;
                    assert(doomed@[i] == x);
                }
                assert forall|j: int|
                    0 <= j < it.index() + 1 && all.contains_key(*it.seq()[j]) && is_dropped(
                        *it.seq()[j],
                        all[*it.seq()[j]].timestamp,
                        now_ms,
                        below,
                    ) implies doomed@.contains(*#[trigger] it.seq()[j]) by {
                    if j < it.index() {
                        assert(old_doomed.contains(*it.seq()[j]));
                    } else {
                        assert(doomed@[doomed@.len() - 1] == *k);
                    }
                }
                assert forall|x: u64|
                    (it.index() + 1 == it.seq().len() && all.contains_key(x) && is_dropped(
                        x,
                        all[x].timestamp,
                        now_ms,
                        below,
                    )) implies doomed@.contains(x) by {
                    assert(it.seq().unref().to_set().contains(x));
                    assert(it.seq().unref().contains(x));
                }
            }
        }
        let mut i: usize = 0;
        while i < doomed.len()
            invariant
                self.newest_frame_id == old(self).newest_frame_id,
                self.latest_decoded_frame == old(self).latest_decoded_frame,
                i <= doomed@.len(),
                forall|j: int| 0 <= j < doomed@.len() ==> all.contains_key(#[trigger] doomed@[j])
                    && is_dropped(doomed@[j], all[doomed@[j]].timestamp, now_ms, below),
                forall|k: u64| all.contains_key(k) && is_dropped(k, all[k].timestamp, now_ms, below)
                    ==> doomed@.contains(k),
                self.active_reassembly@ == Map::new(
                    |k: u64| all.contains_key(k) && !(exists|j: int| 0 <= j < i && #[trigger] doomed@[j] == k),
                    |k: u64| all[k],
                ),
            decreases doomed@.len() - i,
        {
            self.active_reassembly.remove(&doomed[i]);
            assert(self.active_reassembly@ =~= Map::new(
                |k: u64| all.contains_key(k) && !(exists|j: int| 0 <= j < i + 1 && #[trigger] doomed@[j] == k),
                |k: u64| all[k],
            ));
            i = i + 1;
        }
        assert forall|k: u64| doomed@.contains(k) implies all.contains_key(k) && is_dropped(
            k,
            all[k].timestamp,
            now_ms,
            below,
        ) by {
            let j = choose|j: int| 0 <= j < doomed@.len() && doomed@[j] == k;
        }
        let ghost pv = all.map_values(|f: FrameFragment| f.pending());
        assert(self.pending_frames() =~= pruned(pv, now_ms, below));
    }

    /// Files one video fragment. Stale reassemblies are dropped first. A
    /// fragment of a frame older than the newest decoded one, or older than
    /// the newest frame whose fragments were accepted, is ignored. Otherwise
    /// the reassemblies of all older frames are dropped (frame leaping), and
    /// when the fragment completes its frame, the frame's reassembly is
    /// removed and its bytes, joined in index order, are returned for
    /// decoding.
    pub fn handle_packet(&mut self, header: &VideoPacketHeader, payload: &[u8], now_ms: u64) -> (r: Option<CompletedFrame>)
        ensures
            final(self).latest() == old(self).latest(),
            (final(self).pending_frames(), final(self).newest(), completed_bytes(r)) == spec_handle_packet(
                old(self).pending_frames(),
                old(self).newest(),
                old(self).latest_frame_id(),
                *header,
                payload@,
                now_ms,
            ),
            r matches Some(c) ==> c.frame_id == header.frame_id,
    {
        let fid = header.frame_id;
        let behind_decoded = match &self.latest_decoded_frame {
            Some(latest) => fid < latest.frame_id,
            None => false,
        };
        let behind_newest = match self.newest_frame_id {
            Some(n) => fid < n,
            None => false,
        };
        if behind_decoded || behind_newest {
            self.drop_reassemblies(now_ms, None);
            return None;
        }
        let ghost p0 = self.pending_frames();
        self.drop_reassemblies(now_ms, Some(fid));
        self.newest_frame_id = Some(fid);
        let ghost p2 = self.pending_frames();
        assert(p2 == drop_older(purge_stale(p0, now_ms), fid));
        let mut entry = match self.active_reassembly.remove(&fid) {
            Some(e) => e,
            None => FrameFragment { timestamp: now_ms, fragments: HashMap::new(), count: header.fragment_count },
        };
        assert(self.pending_frames() =~= p2.remove(fid));
        let mut bytes: Vec<u8> = Vec::with_capacity(payload.len());
        bytes.extend_from_slice(payload);
        assert(bytes@ =~= payload@);
        entry.fragments.insert(header.fragment_index, bytes);
        let ghost e = with_fragment(p2, *header, payload@, now_ms);
        assert(entry.pending().fragments =~= e.fragments);
        assert(entry.pending() == e);
        assert(entry.fragments@.dom() =~= e.fragments.dom());
        if entry.fragments.len() == entry.count as usize {
            match assemble_fragments(&entry.fragments, entry.count) {
                Some(complete) => {
                    return Some(CompletedFrame { frame_id: fid, bytes: complete });
                },
                None => {},
            }
        }
        self.active_reassembly.insert(fid, entry);
        assert(self.pending_frames() =~= p2.insert(fid, e));
        None
    }

    /// Offers a decoded frame to the slot. It is kept only where the slot is
    /// empty or holds an older frame; the result says whether it was kept.
    pub fn store_decoded_frame(&mut self, frame: DecodedFrame) -> (kept: bool)
        ensures
            kept == (old(self).latest_frame_id() matches Some(l) ==> frame.frame_id > l),
            final(self).latest() == (if kept { Some(frame@) } else { old(self).latest() }),
            final(self).pending_frames() == old(self).pending_frames(),
            final(self).newest() == old(self).newest(),
    {
        let newer = match &self.latest_decoded_frame {
            Some(curr) => frame.frame_id > curr.frame_id,
            None => true,
        };
        if newer {
            self.latest_decoded_frame = Some(frame);
        }
        newer
    }

    /// A copy of the newest decoded frame, if any.
    pub fn take_latest_frame(&self) -> (r: Option<DecodedFrame>)
        ensures
            match r {
                Some(f) => self.latest() == Some(f@),
                None => self.latest() is None,
            },
    {
        match &self.latest_decoded_frame {
            Some(f) => Some(f.clone()),
            None => None,
        }
    }

    /// Empties the slot of the newest decoded frame and forgets the newest
    /// frame id accepted, so that the frames of a new session, whose ids
    /// start over, are taken.
    pub fn clear(&mut self)
        ensures
            final(self).latest() is None,
            final(self).newest() is None,
            final(self).pending_frames() == old(self).pending_frames(),
    {
        self.latest_decoded_frame = None;
        self.newest_frame_id = None;
    }
}


/// The reassemblies, the newest accepted frame id and the completed frames
/// after a run of packets, all handled at `now` while the newest decoded
/// frame stays `latest`.
pub open spec fn feed_packets(
    p: Map<u64, PendingFrame>,
    newest: Option<u64>,
    latest: Option<u64>,
    packets: Seq<(VideoPacketHeader, Seq<u8>)>,
    now: u64,
) -> (Map<u64, PendingFrame>, Option<u64>, Seq<Option<Seq<u8>>>)
    decreases packets.len(),
{
    if packets.len() == 0 {
        (p, newest, Seq::empty())
    } else {
        let prev = feed_packets(p, newest, latest, packets.drop_last(), now);
        let step = spec_handle_packet(prev.0, prev.1, latest, packets.last().0, packets.last().1, now);
        (step.0, step.1, prev.2.push(step.2))
    }
}

/// The packets that carry `frags`, in order.
pub open spec fn packets_of(frags: Seq<VideoFragment>) -> Seq<(VideoPacketHeader, Seq<u8>)> {
    frags.map_values(|f: VideoFragment| (f.header, f.payload@))
}

/// Whether `order` lists every fragment index below `n` exactly once: an
/// order in which the `n` fragments of a frame may arrive.
pub open spec fn is_arrival_order(order: Seq<u16>, n: nat) -> bool {
    &&& order.len() == n
    &&& order.no_duplicates()
    &&& forall|j: int| 0 <= j < n ==> #[trigger] order[j] < n
    &&& forall|i: u16| i < n ==> #[trigger] order.contains(i)
}

/// The packets that carry `frags`, in the arrival order `order`.
pub open spec fn packets_in(frags: Seq<VideoFragment>, order: Seq<u16>) -> Seq<(VideoPacketHeader, Seq<u8>)> {
    order.map_values(|i: u16| (frags[i as int].header, frags[i as int].payload@))
}

/// The fragments of `payload` whose indices are among the first `k` of
/// `order`, by index.
pub open spec fn received_chunks(payload: Seq<u8>, order: Seq<u16>, k: nat) -> Map<u16, Seq<u8>> {
    Map::new(|i: u16| order.take(k as int).contains(i), |i: u16| spec_chunk(payload, i as int))
}

/// The fragments `0 .. k` of `payload`, by index.
pub open spec fn first_chunks(payload: Seq<u8>, k: nat) -> Map<u16, Seq<u8>> {
    Map::new(|j: u16| j < k, |j: u16| spec_chunk(payload, j as int))
}

proof fn lemma_received_chunks_len(payload: Seq<u8>, order: Seq<u16>, k: nat)
    requires
        order.no_duplicates(),
        k <= order.len(),
    ensures
        received_chunks(payload, order, k).dom().finite(),
        received_chunks(payload, order, k).dom().len() == k,
{
    let t = order.take(k as int);
    assert(t.no_duplicates()) by {
        assert forall|a: int, b: int| 0 <= a < t.len() && 0 <= b < t.len() && a != b implies t[a] != t[b] by {
            assert(t[a] == order[a] && t[b] == order[b]);
        }
    }
    t.unique_seq_to_set();
    vstd::seq_lib::seq_to_set_is_finite(t);
    assert(received_chunks(payload, order, k).dom() =~= t.to_set());
}

proof fn lemma_received_chunks_step(payload: Seq<u8>, order: Seq<u16>, k: nat)
    requires
        1 <= k <= order.len(),
    ensures
        received_chunks(payload, order, k) == received_chunks(payload, order, (k - 1) as nat).insert(
            order[k - 1],
            spec_chunk(payload, order[k - 1] as int),
        ),
{
    let t = order.take(k as int);
    let u = order.take(k - 1);
    assert forall|x: u16| t.contains(x) <==> (u.contains(x) || x == order[k - 1]) by {
        if t.contains(x) {
            let j = choose|j: int| 0 <= j < t.len() && t[j] == x;
            if j < k - 1 {
                assert(u[j] == x);
            }
        }
        if u.contains(x) {
            let j = choose|j: int| 0 <= j < u.len() && u[j] == x;
            assert(t[j] == x);
        }
        if x == order[k - 1] {
            assert(t[k - 1] == x);
        }
    }
    assert(received_chunks(payload, order, k) =~= received_chunks(payload, order, (k - 1) as nat).insert(
        order[k - 1],
        spec_chunk(payload, order[k - 1] as int),
    ));
}

proof fn lemma_assemble_chunks(payload: Seq<u8>, m: nat)
    requires
        m <= spec_fragment_total(payload.len()),
        spec_fragment_total(payload.len()) <= 65535,
    ensures
        assemble(first_chunks(payload, spec_fragment_total(payload.len())), m) == payload.subrange(
            0,
            if m * 1100 <= payload.len() { (m * 1100) as int } else { payload.len() as int },
        ),
    decreases m,
{
    let n = spec_fragment_total(payload.len());
    let frags = first_chunks(payload, n);
    if m == 0 {
        assert(payload.subrange(0, 0) =~= Seq::<u8>::empty());
    } else {
        lemma_assemble_chunks(payload, (m - 1) as nat);
        let a = (m - 1) * 1100;
        assert(a < payload.len());
        assert(frags[(m - 1) as u16] == spec_chunk(payload, (m - 1) as int));
        let b = if m * 1100 <= payload.len() { (m * 1100) as int } else { payload.len() as int };
        assert(payload.subrange(0, a) + payload.subrange(a, b) =~= payload.subrange(0, b));
    }
}

proof fn lemma_feed_prefix(
    p: Map<u64, PendingFrame>,
    newest: Option<u64>,
    latest: Option<u64>,
    frame_id: u64,
    payload: Seq<u8>,
    ts: u64,
    now: u64,
    frags: Seq<VideoFragment>,
    order: Seq<u16>,
    k: nat,
)
    requires
        is_fragmentation(frags, frame_id, payload, ts),
        0 < payload.len() <= 65535 * 1100,
        !p.contains_key(frame_id),
        !is_superseded(frame_id, newest, latest),
        is_arrival_order(order, frags.len()),
        1 <= k <= frags.len(),
    ensures
        ({
            let r = feed_packets(p, newest, latest, packets_in(frags, order).take(k as int), now);
            &&& r.2.len() == k
            &&& r.1 == Some(frame_id)
            &&& forall|i: int| 0 <= i < k && i < frags.len() - 1 ==> (#[trigger] r.2[i]) is None
            &&& k < frags.len() ==> r.0.contains_key(frame_id) && r.0[frame_id] == PendingFrame {
                timestamp: now,
                count: frags.len() as u16,
                fragments: received_chunks(payload, order, k),
            }
            &&& k == frags.len() ==> r.2[k - 1] == Some(payload)
        }),
    decreases k,
{
    let n = frags.len();
    let packets = packets_in(frags, order).take(k as int);
    assert(packets.drop_last() =~= packets_in(frags, order).take(k - 1));
    let prev = feed_packets(p, newest, latest, packets.drop_last(), now);
    let idx = order[k - 1];
    assert(idx < n);
    let h = frags[idx as int].header;
    let pl = frags[idx as int].payload@;
    assert(packets.last() == (h, pl));
    assert(h.frame_id == frame_id);
    assert(h.fragment_index == idx);
    assert(h.fragment_count == n as u16);
    assert(pl == spec_chunk(payload, idx as int));
    if k > 1 {
        lemma_feed_prefix(p, newest, latest, frame_id, payload, ts, now, frags, order, (k - 1) as nat);
    } else {
        assert(packets_in(frags, order).take(0) =~= Seq::<(VideoPacketHeader, Seq<u8>)>::empty());
        assert(received_chunks(payload, order, 0) =~= Map::<u16, Seq<u8>>::empty());
    }
    assert(!is_superseded(frame_id, prev.1, latest));
    let p2 = drop_older(purge_stale(prev.0, now), frame_id);
    assert(k > 1 ==> p2.contains_key(frame_id) && p2[frame_id] == prev.0[frame_id]);
    assert(k == 1 ==> !p2.contains_key(frame_id));
    let e = with_fragment(p2, h, pl, now);
    lemma_received_chunks_step(payload, order, k);
    assert(e.fragments == received_chunks(payload, order, k));
    assert(e.timestamp == now);
    assert(e.count == n as u16);
    lemma_received_chunks_len(payload, order, k);
    if k == n {
        assert(order.take(n as int) =~= order);
        assert forall|i: u16| order.contains(i) <==> i < n by {
            if order.contains(i) {
                let j = choose|j: int| 0 <= j < order.len() && order[j] == i;
                assert(order[j] < n);
            }
        }
        assert(e.fragments =~= first_chunks(payload, n));
        assert(all_fragments_present(e));
        lemma_assemble_chunks(payload, n);
        assert(payload.subrange(0, payload.len() as int) =~= payload);
    } else {
        assert(!is_complete(e));
    }
}

/// Reassembly undoes fragmentation, whatever the order of arrival: the
/// fragments of a frame, handled in any order by a buffer that holds no
/// reassembly of that frame and has seen no newer frame, complete nothing
/// until the last one, and the last one completes exactly the frame that was
/// cut up.
pub proof fn lemma_fragments_reassemble_in_any_order(
    p: Map<u64, PendingFrame>,
    newest: Option<u64>,
    latest: Option<u64>,
    frame_id: u64,
    payload: Seq<u8>,
    ts: u64,
    now: u64,
    frags: Seq<VideoFragment>,
    order: Seq<u16>,
)
    requires
        is_fragmentation(frags, frame_id, payload, ts),
        0 < payload.len() <= 65535 * 1100,
        !p.contains_key(frame_id),
        !is_superseded(frame_id, newest, latest),
        is_arrival_order(order, frags.len()),
    ensures
        ({
            let out = feed_packets(p, newest, latest, packets_in(frags, order), now).2;
            &&& out.len() == frags.len()
            &&& out[out.len() - 1] == Some(payload)
            &&& forall|i: int| 0 <= i < out.len() - 1 ==> (#[trigger] out[i]) is None
        }),
{
    lemma_feed_prefix(p, newest, latest, frame_id, payload, ts, now, frags, order, frags.len());
    assert(packets_in(frags, order).take(frags.len() as int) =~= packets_in(frags, order));
}

/// Reassembly undoes fragmentation: the fragments of a frame, handled in the
/// order they were cut, complete nothing until the last one, and the last one
/// completes exactly the frame that was cut up.
pub proof fn lemma_fragments_reassemble(
    p: Map<u64, PendingFrame>,
    newest: Option<u64>,
    latest: Option<u64>,
    frame_id: u64,
    payload: Seq<u8>,
    ts: u64,
    now: u64,
    frags: Seq<VideoFragment>,
)
    requires
        is_fragmentation(frags, frame_id, payload, ts),
        0 < payload.len() <= 65535 * 1100,
        !p.contains_key(frame_id),
        !is_superseded(frame_id, newest, latest),
    ensures
        ({
            let out = feed_packets(p, newest, latest, packets_of(frags), now).2;
            &&& out.len() == frags.len()
            &&& out[out.len() - 1] == Some(payload)
            &&& forall|i: int| 0 <= i < out.len() - 1 ==> (#[trigger] out[i]) is None
        }),
{
    let n = frags.len();
    let order = Seq::new(n, |j: int| j as u16);
    assert(order.no_duplicates());
    assert forall|i: u16| i < n implies #[trigger] order.contains(i) by {
        assert(order[i as int] == i);
    }
    assert(packets_in(frags, order) =~= packets_of(frags));
    lemma_fragments_reassemble_in_any_order(p, newest, latest, frame_id, payload, ts, now, frags, order);
}

/// A partly received frame is given up exactly 100 ms after its first
/// fragment: it is still kept 99 ms later, and dropped from 100 ms on.
pub proof fn lemma_reassembly_lives_100_ms(t: u64, now: u64)
    requires
        t <= now,
    ensures
        now - t <= 99 ==> !is_stale(t, now),
        now - t >= 100 ==> is_stale(t, now),
{
}

/// After any packet, no reassembly older than `REASSEMBLY_TIMEOUT_MS` is
/// kept.
pub proof fn lemma_no_stale_reassembly(
    p: Map<u64, PendingFrame>,
    newest: Option<u64>,
    latest: Option<u64>,
    h: VideoPacketHeader,
    payload: Seq<u8>,
    now: u64,
)
    ensures
        ({
            let after = spec_handle_packet(p, newest, latest, h, payload, now).0;
            forall|k: u64| #[trigger] after.contains_key(k) ==> !is_stale(after[k].timestamp, now)
        }),
{
}

/// Frame leaping: a packet of frame `N` that is accepted makes `N` the
/// newest frame and discards at once every partly received frame older than
/// `N`; only `N` and newer frames stay in reassembly.
pub proof fn lemma_newer_frame_discards_older(
    p: Map<u64, PendingFrame>,
    newest: Option<u64>,
    latest: Option<u64>,
    h: VideoPacketHeader,
    payload: Seq<u8>,
    now: u64,
)
    requires
        !is_superseded(h.frame_id, newest, latest),
    ensures
        ({
            let r = spec_handle_packet(p, newest, latest, h, payload, now);
            &&& r.1 == Some(h.frame_id)
            &&& forall|k: u64| #[trigger] r.0.contains_key(k) ==> k >= h.frame_id
        }),
{
}

/// Frame leaping: a packet of a frame older than the newest decoded frame,
/// or older than the newest frame accepted, completes nothing and changes
/// nothing but the clean-up of stale reassemblies.
pub proof fn lemma_older_frames_ignored(
    p: Map<u64, PendingFrame>,
    newest: Option<u64>,
    latest: Option<u64>,
    h: VideoPacketHeader,
    payload: Seq<u8>,
    now: u64,
)
    requires
        is_superseded(h.frame_id, newest, latest),
    ensures
        spec_handle_packet(p, newest, latest, h, payload, now) == (purge_stale(p, now), newest, None::<Seq<u8>>),
{
}

/// Whether no reassembly is older than the newest frame accepted.
pub open spec fn pending_not_older(p: Map<u64, PendingFrame>, newest: Option<u64>) -> bool {
    newest matches Some(n) ==> forall|k: u64| #[trigger] p.contains_key(k) ==> k >= n
}

/// Every packet keeps the reassemblies no older than the newest frame
/// accepted, and the newest frame accepted never goes back.
pub proof fn lemma_leaping_invariant(
    p: Map<u64, PendingFrame>,
    newest: Option<u64>,
    latest: Option<u64>,
    h: VideoPacketHeader,
    payload: Seq<u8>,
    now: u64,
)
    requires
        pending_not_older(p, newest),
    ensures
        ({
            let r = spec_handle_packet(p, newest, latest, h, payload, now);
            &&& pending_not_older(r.0, r.1)
            &&& newest matches Some(n) ==> r.1 matches Some(m) && m >= n
        }),
{
}

/// Once packets of frame `n` have been accepted, no later packet of an
/// older frame completes anything: over any run of packets, every packet
/// whose frame is older than `n` yields no frame to decode.
pub proof fn lemma_older_frames_never_complete(
    p: Map<u64, PendingFrame>,
    n: u64,
    latest: Option<u64>,
    packets: Seq<(VideoPacketHeader, Seq<u8>)>,
    now: u64,
)
    ensures
        ({
            let r = feed_packets(p, Some(n), latest, packets, now);
            &&& r.1 matches Some(m) && m >= n
            &&& r.2.len() == packets.len()
            &&& forall|i: int| 0 <= i < packets.len() && (#[trigger] packets[i]).0.frame_id < n ==> r.2[i] is None
        }),
    decreases packets.len(),
{
    if packets.len() > 0 {
        lemma_older_frames_never_complete(p, n, latest, packets.drop_last(), now);
        let r = feed_packets(p, Some(n), latest, packets, now);
        let prev = feed_packets(p, Some(n), latest, packets.drop_last(), now);
        assert forall|i: int| 0 <= i < packets.len() && (#[trigger] packets[i]).0.frame_id < n implies r.2[i] is None by {
            if i < packets.len() - 1 {
                assert(packets.drop_last()[i] == packets[i]);
                assert(r.2[i] == prev.2[i]);
            }
        }
    }
}

} // verus!
