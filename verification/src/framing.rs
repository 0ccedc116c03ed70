//! Length-prefixed framing of control messages:
//! `[magic (4 bytes)] [payload length (4 bytes, big-endian)] [payload]`.
use vstd::prelude::*;

use crate::errors::ProtocolError;

verus! {

/// Magic bytes that open every frame ("ARCL").
pub const PROTOCOL_MAGIC: [u8; 4] = [0x41, 0x52, 0x43, 0x4C];

/// Length of the frame header: magic plus big-endian payload length.
pub const FRAME_HEADER_LEN: usize = 8;

/// Largest payload a frame may carry (10 MiB).
pub const MAX_FRAME_PAYLOAD: usize = 10485760;

/// The four magic bytes as a sequence.
pub open spec fn magic_seq() -> Seq<u8> {
    seq![0x41u8, 0x52u8, 0x43u8, 0x4Cu8]
}

/// Whether the first four bytes of `h` are the protocol magic.
pub open spec fn starts_with_magic(h: Seq<u8>) -> bool {
    &&& h.len() >= 4
    &&& h[0] == 0x41u8
    &&& h[1] == 0x52u8
    &&& h[2] == 0x43u8
    &&& h[3] == 0x4Cu8
}

/// Big-endian encoding of a 32-bit length.
pub open spec fn be_u32_bytes(n: u32) -> Seq<u8> {
    seq![
        (n / 0x1000000) as u8,
        ((n / 0x10000) % 0x100) as u8,
        ((n / 0x100) % 0x100) as u8,
        (n % 0x100) as u8,
    ]
}

/// The number that four big-endian bytes starting at `at` stand for.
pub open spec fn be_u32_at(b: Seq<u8>, at: int) -> nat {
    (b[at] * 0x1000000 + b[at + 1] * 0x10000 + b[at + 2] * 0x100 + b[at + 3]) as nat
}

/// The frame that carries `payload`.
pub open spec fn spec_frame(payload: Seq<u8>) -> Seq<u8> {
    magic_seq() + be_u32_bytes(payload.len() as u32) + payload
}

/// What a frame header announces, checked against a payload limit: the
/// payload length, or the error for a foreign magic or a length over `limit`.
pub open spec fn spec_header_outcome(header: Seq<u8>, limit: nat) -> Result<nat, ProtocolError> {
    if !starts_with_magic(header) {
        Err(ProtocolError::InvalidMagic)
    } else if be_u32_at(header, 4) > limit {
        Err(ProtocolError::MessageTooLarge)
    } else {
        Ok(be_u32_at(header, 4))
    }
}

/// What reading one frame from the front of `stream` gives: the payload, or
/// `ConnectionReset` where the stream ends before the header or the payload
/// is complete.
pub open spec fn spec_read_frame(stream: Seq<u8>) -> Result<Seq<u8>, ProtocolError> {
    if stream.len() < 8 {
        Err(ProtocolError::ConnectionReset)
    } else {
        match spec_header_outcome(stream, MAX_FRAME_PAYLOAD as nat) {
            Err(e) => Err(e),
            Ok(n) => if stream.len() < 8 + n {
                Err(ProtocolError::ConnectionReset)
            } else {
                Ok(stream.subrange(8, 8 + n as int))
            },
        }
    }
}

proof fn lemma_be_u32_roundtrip(n: u32)
    ensures
        be_u32_at(be_u32_bytes(n), 0) == n,
{
    let b = be_u32_bytes(n);
    assert(b[0] == n / 0x1000000);
    assert(b[1] == (n / 0x10000) % 0x100);
    assert(b[2] == (n / 0x100) % 0x100);
    assert(b[3] == n % 0x100);
    assert((n / 0x1000000) * 0x1000000 + ((n / 0x10000) % 0x100) * 0x10000 + ((n / 0x100)
        % 0x100) * 0x100 + n % 0x100 == n) by (nonlinear_arith);
}

/// Checks a frame header against a payload limit and returns the announced
/// payload length.
pub fn frame_payload_len(header: &[u8], limit: u64) -> (r: Result<usize, ProtocolError>)
    requires
        header@.len() >= 8,
    ensures
        match (r, spec_header_outcome(header@, limit as nat)) {
            (Ok(n), Ok(m)) => n == m,
            (Err(e), Err(f)) => e == f,
            _ => false,
        },
{
    if header[0] != 0x41 || header[1] != 0x52 || header[2] != 0x43 || header[3] != 0x4C {
        return Err(ProtocolError::InvalidMagic);
    }
    let len: u64 = (header[4] as u64) * 0x1000000 + (header[5] as u64) * 0x10000 + (header[6] as u64)
        * 0x100 + (header[7] as u64);
    if len > limit {
        return Err(ProtocolError::MessageTooLarge);
    }
    Ok(len as usize)
}

/// Frames an already serialised payload. Payloads over `MAX_FRAME_PAYLOAD`
/// are refused with `MessageTooLarge`.
pub fn encode_frame(payload: &[u8]) -> (r: Result<Vec<u8>, ProtocolError>)
    ensures
        match r {
            Ok(frame) => payload@.len() <= MAX_FRAME_PAYLOAD && frame@ == spec_frame(payload@),
            Err(e) => payload@.len() > MAX_FRAME_PAYLOAD && e == ProtocolError::MessageTooLarge,
        },
{
    if payload.len() > MAX_FRAME_PAYLOAD {
        return Err(ProtocolError::MessageTooLarge);
    }
    let n: u32 = payload.len() as u32;
    let mut frame: Vec<u8> = Vec::with_capacity(8 + payload.len());
    frame.push(0x41);
    frame.push(0x52);
    frame.push(0x43);
    frame.push(0x4C);
    frame.push((n / 0x1000000) as u8);
    frame.push(((n / 0x10000) % 0x100) as u8);
    frame.push(((n / 0x100) % 0x100) as u8);
    frame.push((n % 0x100) as u8);
    let ghost head = frame@;
    frame.extend_from_slice(payload);
    assert(head =~= magic_seq() + be_u32_bytes(n));
    assert(frame@ =~= head + payload@);
    Ok(frame)
}

/// Reads one complete frame from the front of `stream` and returns its
/// payload; bytes after the frame are left alone.
pub fn read_frame_sync(stream: &[u8]) -> (r: Result<Vec<u8>, ProtocolError>)
    ensures
        match (r, spec_read_frame(stream@)) {
            (Ok(p), Ok(q)) => p@ == q,
            (Err(e), Err(f)) => e == f,
            _ => false,
        },
{
    if stream.len() < FRAME_HEADER_LEN {
        return Err(ProtocolError::ConnectionReset);
    }
    let len = match frame_payload_len(stream, MAX_FRAME_PAYLOAD as u64) {
        Ok(n) => n,
        Err(e) => return Err(e),
    };
    if stream.len() - FRAME_HEADER_LEN < len {
        return Err(ProtocolError::ConnectionReset);
    }
    let mut payload: Vec<u8> = Vec::with_capacity(len);
    payload.extend_from_slice(&stream[FRAME_HEADER_LEN..FRAME_HEADER_LEN + len]);
    assert(payload@ =~= stream@.subrange(8, 8 + len));
    Ok(payload)
}

/// Reading the frame of a payload back gives that payload, whatever bytes
/// follow it in the stream.
pub proof fn lemma_frame_roundtrip(payload: Seq<u8>, rest: Seq<u8>)
    requires
        payload.len() <= MAX_FRAME_PAYLOAD,
    ensures
        spec_read_frame(spec_frame(payload) + rest) == Ok::<Seq<u8>, ProtocolError>(payload),
{
    let s = spec_frame(payload) + rest;
    let n = payload.len() as u32;
    lemma_be_u32_roundtrip(n);
    assert(s.subrange(4, 8) =~= be_u32_bytes(n));
    assert(be_u32_at(s, 4) == be_u32_at(be_u32_bytes(n), 0));
    assert(s.subrange(8, 8 + payload.len() as int) =~= payload);
}

} // verus!
