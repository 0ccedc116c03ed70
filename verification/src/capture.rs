//! Screen capture: the software fallback that renders a moving test pattern,
//! the pixel handling of the Windows GDI capturer, and JPEG encoding of
//! captured frames.
use vstd::prelude::*;

use crate::errors::CaptureError;

verus! {

/// Name and size of a capture source.
#[derive(Debug, Clone)]
pub struct CaptureSourceInfo {
    pub name: String,
    pub width: u32,
    pub height: u32,
}

/// One captured frame, JPEG-encoded. Capture time and duration are measured
/// around the capture call by its caller.
#[derive(Debug)]
pub struct CapturedFrame {
    pub width: u32,
    pub height: u32,
    pub pixel_format: String,
    pub frame_sequence: u64,
    pub bytes: Vec<u8>,
}

/// What JPEG-encoding RGB8 pixels of a `width` x `height` image at `quality`
/// gives, or nothing where the encoder fails.
pub uninterp spec fn jpeg_rgb_encoding(pixels: Seq<u8>, width: u32, height: u32, quality: u8) -> Option<Seq<u8>>;

/// Encodes RGB8 pixels with `image::codecs::jpeg::JpegEncoder::new_with_quality`
/// and `JpegEncoder::encode(.., ColorType::Rgb8)`. The encoder panics unless
/// the buffer holds exactly `width * height * 3` bytes, hence the
/// precondition. Claimed: the result is `jpeg_rgb_encoding` of the
/// arguments; nothing is claimed about the bytes themselves.
#[verifier::external_body]
fn encode_jpeg_rgb(pixels: &[u8], width: u32, height: u32, quality: u8) -> (r: Option<Vec<u8>>)
    requires
        pixels@.len() == width * height * 3,
    ensures
        match r {
            Some(b) => jpeg_rgb_encoding(pixels@, width, height, quality) == Some(b@),
            None => jpeg_rgb_encoding(pixels@, width, height, quality) is None,
        },
{
    let mut out: Vec<u8> = Vec::new();
    let res = {
        let mut encoder = image::codecs::jpeg::JpegEncoder::new_with_quality(&mut out, quality);
        encoder.encode(pixels, width, height, image::ColorType::Rgb8)
    };
    match res {
        Ok(()) => Some(out),
        Err(_) => None,
    }
}

/// Width of the fallback capturer's frames.
pub const FALLBACK_WIDTH: u32 = 1280;

/// Height of the fallback capturer's frames.
pub const FALLBACK_HEIGHT: u32 = 720;

/// Side of the square that the fallback pattern moves across the frame.
pub const PATTERN_BOX: u32 = 100;

/// JPEG quality of fallback frames.
pub const FALLBACK_JPEG_QUALITY: u8 = 60;

/// JPEG quality of GDI frames.
pub const GDI_JPEG_QUALITY: u8 = 75;

/// Left edge of the square in frame `seq`.
pub open spec fn box_left(seq: u64) -> int {
    (seq * 8) % (1280 - 100)
}

/// Top edge of the square in frame `seq`.
pub open spec fn box_top(seq: u64) -> int {
    (seq * 4) % (720 - 100)
}

/// Byte `i` of the RGB8 pattern of frame `seq`: grey (120) everywhere but in
/// the 100 x 100 square at (`box_left`, `box_top`), which is (58, 126, 235).
pub open spec fn pattern_byte(seq: u64, i: int) -> u8 {
    let p = i / 3;
    let x = p % 1280;
    let y = p / 1280;
    if box_left(seq) <= x < box_left(seq) + 100 && box_top(seq) <= y < box_top(seq) + 100 {
        if i % 3 == 0 {
            58
        } else if i % 3 == 1 {
            126
        } else {
            235
        }
    } else {
        120
    }
}

/// The moving square always lies wholly inside the frame, whatever the
/// frame number.
pub proof fn lemma_pattern_square_inside(seq: u64)
    ensures
        0 <= box_left(seq) && box_left(seq) + 100 <= 1280,
        0 <= box_top(seq) && box_top(seq) + 100 <= 720,
{
}

/// The RGB8 pixels of fallback frame `seq`.
pub open spec fn fallback_pixels(seq: u64) -> Seq<u8> {
    Seq::new(1280 * 720 * 3, |i: int| pattern_byte(seq, i))
}

/// The pattern with only the rows above `rows` and the first `cols` pixels of
/// row `rows` of the square painted.
spec fn painted_byte(seq: u64, i: int, rows: int, cols: int) -> u8 {
    let p = i / 3;
    let x = p % 1280;
    let y = p / 1280;
    let ox = box_left(seq);
    let oy = box_top(seq);
    let in_rows = ox <= x < ox + 100 && oy <= y < oy + rows;
    let in_cur = y == oy + rows && ox <= x < ox + cols;
    if in_rows || in_cur {
        pattern_byte(seq, i)
    } else {
        120
    }
}

/// Renders the RGB8 pixels of fallback frame `seq`.
fn render_fallback_pattern(seq: u64) -> (r: Vec<u8>)
    requires
        seq <= u64::MAX / 8,
    ensures
        r@ == fallback_pixels(seq),
{
    let n: usize = 1280 * 720 * 3;
    let mut rgb: Vec<u8> = vec![120u8; n];
    let offset_x: u64 = (seq * 8) % (1280 - 100);
    let offset_y: u64 = (seq * 4) % (720 - 100);
    let mut y: u64 = 0;
    while y < 100
        invariant
            rgb@.len() == n,
            n == 1280 * 720 * 3,
            offset_x == box_left(seq),
            offset_y == box_top(seq),
            y <= 100,
            forall|i: int| 0 <= i < n ==> #[trigger] rgb@[i] == painted_byte(seq, i, y as int, 0),
        decreases 100 - y,
    {
        let mut x: u64 = 0;
        while x < 100
            invariant
                rgb@.len() == n,
                n == 1280 * 720 * 3,
                offset_x == box_left(seq),
                offset_y == box_top(seq),
                y < 100,
                x <= 100,
                forall|i: int| 0 <= i < n ==> #[trigger] rgb@[i] == painted_byte(seq, i, y as int, x as int),
            decreases 100 - x,
        {
            let px: usize = ((offset_y + y) * 1280 + (offset_x + x)) as usize;
            if px * 3 + 2 < rgb.len() {
                let ghost before = rgb@;
                rgb.set(px * 3, 58);
                rgb.set(px * 3 + 1, 126);
                rgb.set(px * 3 + 2, 235);
                assert forall|i: int| 0 <= i < n implies #[trigger] rgb@[i] == painted_byte(
                    seq,
                    i,
                    y as int,
                    x + 1,
                ) by {
                    assert(before[i] == painted_byte(seq, i, y as int, x as int));
                    if i / 3 == px {
                        assert(i == px * 3 || i == px * 3 + 1 || i == px * 3 + 2);
                    }
                }
            }
            x = x + 1;
        }
        assert forall|i: int| 0 <= i < n implies #[trigger] rgb@[i] == painted_byte(seq, i, y + 1, 0) by {
            assert(rgb@[i] == painted_byte(seq, i, y as int, 100));
        }
        y = y + 1;
    }
    assert(rgb@ =~= fallback_pixels(seq));
    rgb
}

/// Software capturer that renders a moving square, for platforms without a
/// native capturer.
pub struct FallbackCapturer {
    width: u32,
    height: u32,
    frame_sequence: u64,
    is_running: bool,
}

impl FallbackCapturer {
    #[verifier::type_invariant]
    spec fn fixed_size(&self) -> bool {
        self.width == FALLBACK_WIDTH && self.height == FALLBACK_HEIGHT
    }

    /// Number of frames produced so far.
    pub closed spec fn sequence(&self) -> u64 {
        self.frame_sequence
    }

    /// Whether the capturer has been started and not stopped since.
    pub closed spec fn running(&self) -> bool {
        self.is_running
    }

    pub fn new() -> (r: Self)
        ensures
            r.sequence() == 0,
            !r.running(),
    {
        FallbackCapturer { width: 1280, height: 720, frame_sequence: 0, is_running: false }
    }

    pub fn start(&mut self) -> (r: Result<(), CaptureError>)
        ensures
            r is Ok,
            final(self).running(),
            final(self).sequence() == old(self).sequence(),
    {
        proof {
            use_type_invariant(&*self);
        }
        self.is_running = true;
        Ok(())
    }

    pub fn stop(&mut self)
        ensures
            !final(self).running(),
            final(self).sequence() == old(self).sequence(),
    {
        proof {
            use_type_invariant(&*self);
        }
        self.is_running = false;
    }

    pub fn source_info(&self) -> (r: CaptureSourceInfo)
        ensures
            r.name@ == "Fallback Software Capturer"@,
            r.width == FALLBACK_WIDTH,
            r.height == FALLBACK_HEIGHT,
    {
        proof {
            use_type_invariant(self);
        }
        CaptureSourceInfo {
            name: String::from_str("Fallback Software Capturer"),
            width: self.width,
            height: self.height,
        }
    }

    /// Produces the next frame: the square moves 8 pixels right and 4 down
    /// (wrapping) per frame, and the pixels are JPEG-encoded at quality 60.
    /// A stopped capturer fails with `CaptureFailed`. Pacing to the frame
    /// rate is left to the caller.
    pub fn next_frame(&mut self) -> (r: Result<CapturedFrame, CaptureError>)
        requires
            old(self).running() ==> old(self).sequence() < u64::MAX / 8,
        ensures
            !old(self).running() ==> (final(self).sequence() == old(self).sequence() && (r matches Err(
                CaptureError::CaptureFailed(m),
            ) && m@ == "Capturer not started"@)),
            old(self).running() ==> {
                let seq = (old(self).sequence() + 1) as u64;
                &&& final(self).sequence() == seq
                &&& r matches Ok(f) && {
                    &&& f.width == FALLBACK_WIDTH
                    &&& f.height == FALLBACK_HEIGHT
                    &&& f.frame_sequence == seq
                    &&& f.pixel_format@ == "Development Fallback JPEG"@
                    &&& f.bytes@ == match jpeg_rgb_encoding(
                        fallback_pixels(seq),
                        FALLBACK_WIDTH,
                        FALLBACK_HEIGHT,
                        FALLBACK_JPEG_QUALITY,
                    ) {
                        Some(b) => b,
                        None => Seq::empty(),
                    }
                }
            },
            final(self).running() == old(self).running(),
    {
        proof {
            use_type_invariant(&*self);
        }
        if !self.is_running {
            return Err(CaptureError::CaptureFailed(String::from_str("Capturer not started")));
        }
        self.frame_sequence = self.frame_sequence + 1;
        let seq = self.frame_sequence;
        let rgb = render_fallback_pattern(seq);
        let bytes = match encode_jpeg_rgb(rgb.as_slice(), 1280, 720, FALLBACK_JPEG_QUALITY) {
            Some(b) => b,
            None => Vec::new(),
        };
        Ok(CapturedFrame {
            width: self.width,
            height: self.height,
            pixel_format: String::from_str("Development Fallback JPEG"),
            frame_sequence: seq,
            bytes,
        })
    }
}

/// RGB8 bytes of BGRA8 pixels: per pixel, red, green and blue in that order.
pub open spec fn bgra_as_rgb(bgra: Seq<u8>) -> Seq<u8> {
    Seq::new(bgra.len() / 4 * 3, |i: int| bgra[(i / 3) * 4 + 2 - i % 3])
}

/// Converts BGRA8 pixels, as the GDI hands them out, to RGB8.
pub fn bgra_to_rgb(bgra: &[u8]) -> (r: Vec<u8>)
    ensures
        r@ == bgra_as_rgb(bgra@),
{
    let pixels = bgra.len() / 4;
    let mut rgb: Vec<u8> = Vec::with_capacity(pixels * 3);
    let mut p: usize = 0;
    while p < pixels
        invariant
            pixels == bgra@.len() / 4,
            p <= pixels,
            rgb@.len() == p * 3,
            forall|i: int| 0 <= i < p * 3 ==> #[trigger] rgb@[i] == bgra@[(i / 3) * 4 + 2 - i % 3],
        decreases pixels - p,
    {
        assert(p * 4 + 3 < bgra@.len());
        assert(bgra@.len() == bgra.len());
        rgb.push(bgra[p * 4 + 2]);
        rgb.push(bgra[p * 4 + 1]);
        rgb.push(bgra[p * 4]);
        p = p + 1;
    }
    assert(rgb@ =~= bgra_as_rgb(bgra@));
    rgb
}

/// Pixel handling of the Windows GDI capturer; the screen grab itself is
/// made by the caller, which hands over the BGRA8 pixels.
pub struct WindowsGdiCapturer {
    width: u32,
    height: u32,
    frame_sequence: u64,
    is_running: bool,
}

impl WindowsGdiCapturer {
    /// Size of the captured screen.
    pub closed spec fn size(&self) -> (u32, u32) {
        (self.width, self.height)
    }

    /// Number of frames produced so far.
    pub closed spec fn sequence(&self) -> u64 {
        self.frame_sequence
    }

    /// Whether the capturer has been started and not stopped since.
    pub closed spec fn running(&self) -> bool {
        self.is_running
    }

    /// A stopped capturer of a `width` x `height` screen.
    pub fn new(width: u32, height: u32) -> (r: Self)
        ensures
            r.size() == (width, height),
            r.sequence() == 0,
            !r.running(),
    {
        WindowsGdiCapturer { width, height, frame_sequence: 0, is_running: false }
    }

    pub fn start(&mut self) -> (r: Result<(), CaptureError>)
        ensures
            r is Ok,
            final(self).running(),
            final(self).size() == old(self).size(),
            final(self).sequence() == old(self).sequence(),
    {
        self.is_running = true;
        Ok(())
    }

    pub fn stop(&mut self)
        ensures
            !final(self).running(),
            final(self).size() == old(self).size(),
            final(self).sequence() == old(self).sequence(),
    {
        self.is_running = false;
    }

    pub fn source_info(&self) -> (r: CaptureSourceInfo)
        ensures
            r.name@ == "Native Windows GDI Capturer"@,
            (r.width, r.height) == self.size(),
    {
        CaptureSourceInfo {
            name: String::from_str("Native Windows GDI Capturer"),
            width: self.width,
            height: self.height,
        }
    }

    /// Fails with `CaptureFailed` unless the capturer is running; checked
    /// before the screen is grabbed.
    pub fn begin_frame(&self) -> (r: Result<(), CaptureError>)
        ensures
            self.running() ==> r is Ok,
            !self.running() ==> (r matches Err(CaptureError::CaptureFailed(m)) && m@ == "Capturer not started"@),
    {
        if !self.is_running {
            return Err(CaptureError::CaptureFailed(String::from_str("Capturer not started")));
        }
        Ok(())
    }

    /// Turns the grabbed BGRA8 screen pixels into the next frame, JPEG at
    /// quality 75; an encoder failure gives `CaptureFailed`.
    pub fn finish_frame(&mut self, bgra: &[u8]) -> (r: Result<CapturedFrame, CaptureError>)
        requires
            bgra@.len() == old(self).size().0 * old(self).size().1 * 4,
            old(self).sequence() < u64::MAX,
        ensures
            final(self).size() == old(self).size(),
            final(self).running() == old(self).running(),
            match jpeg_rgb_encoding(bgra_as_rgb(bgra@), old(self).size().0, old(self).size().1, GDI_JPEG_QUALITY) {
                Some(b) => final(self).sequence() == old(self).sequence() + 1 && (r matches Ok(f) && {
                    &&& (f.width, f.height) == old(self).size()
                    &&& f.frame_sequence == final(self).sequence()
                    &&& f.pixel_format@ == "JPEG"@
                    &&& f.bytes@ == b
                }),
                None => final(self).sequence() == old(self).sequence() && (r matches Err(
                    CaptureError::CaptureFailed(m),
                ) && m@ == "JPEG encoding of screen frame failed"@),
            },
    {
        let rgb = bgra_to_rgb(bgra);
        assert(rgb@.len() == self.width * self.height * 3);
        let bytes = match encode_jpeg_rgb(rgb.as_slice(), self.width, self.height, GDI_JPEG_QUALITY) {
            Some(b) => b,
            None => {
                return Err(
                    CaptureError::CaptureFailed(String::from_str("JPEG encoding of screen frame failed")),
                );
            },
        };
        self.frame_sequence = self.frame_sequence + 1;
        Ok(CapturedFrame {
            width: self.width,
            height: self.height,
            pixel_format: String::from_str("JPEG"),
            frame_sequence: self.frame_sequence,
            bytes,
        })
    }
}

} // verus!
