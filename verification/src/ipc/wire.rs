//! Length-prefixed frame format.
//!
//! Each frame is a 4-byte big-endian `u32` length, then that many bytes of
//! payload. Frames larger than 64 MB are refused on both the sending and the
//! receiving side.

use vstd::prelude::*;
use vstd::slice::*;
use crate::ipc::error::IpcClientError;

verus! {

/// Largest payload a frame may carry, in bytes (64 MB).
pub const MAX_FRAME_SIZE: u32 = 64 * 1024 * 1024;

/// The four big-endian bytes of `n` (`0 <= n < 2^32`).
pub open spec fn be32_bytes(n: int) -> Seq<u8> {
    seq![(n / 0x1000000 % 0x100) as u8, (n / 0x10000 % 0x100) as u8, (n / 0x100 % 0x100) as u8, (n % 0x100) as u8]
}

/// The number that the first four bytes of `b` denote, big-endian.
pub open spec fn be32_value(b: Seq<u8>) -> int {
    b[0] * 0x1000000 + b[1] * 0x10000 + b[2] * 0x100 + b[3]
}

/// The bytes of a frame that carries `payload`.
pub open spec fn frame_bytes(payload: Seq<u8>) -> Seq<u8> {
    be32_bytes(payload.len() as int) + payload
}

/// Reading a big-endian header gives back the number it was written from.
pub proof fn lemma_be32_roundtrip(n: int)
    requires
        0 <= n < 0x1_0000_0000,
    ensures
        be32_bytes(n).len() == 4,
        be32_value(be32_bytes(n)) == n,
{
    let b = be32_bytes(n);
    let a0 = n / 0x1000000;
    let r0 = n % 0x1000000;
    let a1 = r0 / 0x10000;
    let r1 = r0 % 0x10000;
    let a2 = r1 / 0x100;
    let a3 = r1 % 0x100;
    assert(n == a0 * 0x1000000 + r0) by (nonlinear_arith)
        requires a0 == n / 0x1000000, r0 == n % 0x1000000;
    assert(r0 == a1 * 0x10000 + r1) by (nonlinear_arith)
        requires a1 == r0 / 0x10000, r1 == r0 % 0x10000;
    assert(r1 == a2 * 0x100 + a3) by (nonlinear_arith)
        requires a2 == r1 / 0x100, a3 == r1 % 0x100;
    assert(0 <= a0 < 0x100) by (nonlinear_arith)
        requires a0 == n / 0x1000000, 0 <= n < 0x1_0000_0000;
    assert(0 <= r0 < 0x1000000 && 0 <= r1 < 0x10000 && 0 <= a3 < 0x100) by (nonlinear_arith)
        requires r0 == n % 0x1000000, r1 == r0 % 0x10000, a3 == r1 % 0x100, n >= 0;
    assert(0 <= a1 < 0x100) by (nonlinear_arith)
        requires a1 == r0 / 0x10000, 0 <= r0 < 0x1000000;
    assert(0 <= a2 < 0x100) by (nonlinear_arith)
        requires a2 == r1 / 0x100, 0 <= r1 < 0x10000;
    assert(n / 0x10000 % 0x100 == a1) by (nonlinear_arith)
        requires n == a0 * 0x1000000 + a1 * 0x10000 + r1, 0 <= a1 < 0x100, 0 <= r1 < 0x10000, a0 >= 0;
    assert(n / 0x100 % 0x100 == a2) by (nonlinear_arith)
        requires n == (a0 * 0x10000 + a1 * 0x100) * 0x100 + a2 * 0x100 + a3, 0 <= a2 < 0x100, 0 <= a3 < 0x100,
            a0 >= 0, a1 >= 0;
    assert(n % 0x100 == a3) by (nonlinear_arith)
        requires n == (a0 * 0x10000 + a1 * 0x100 + a2) * 0x100 + a3, 0 <= a3 < 0x100, a0 >= 0, a1 >= 0, a2 >= 0;
    assert(n / 0x1000000 % 0x100 == a0);
}

/// The header for a payload of `payload_len` bytes.
///
/// Refuses a payload over [`MAX_FRAME_SIZE`] with `FrameTooLarge`, as the
/// sending side of the protocol does before anything is written.
pub fn frame_header(payload_len: usize) -> (r: Result<[u8; 4], IpcClientError>)
    ensures
        payload_len > MAX_FRAME_SIZE ==> (r matches Err(IpcClientError::FrameTooLarge { bytes, max })
            && bytes == payload_len && max == MAX_FRAME_SIZE),
        payload_len <= MAX_FRAME_SIZE ==> (r matches Ok(h) && h@ == be32_bytes(payload_len as int)),
{
    if payload_len > MAX_FRAME_SIZE as usize {
        return Err(IpcClientError::FrameTooLarge { bytes: payload_len, max: MAX_FRAME_SIZE as usize });
    }
    let n: u32 = payload_len as u32;
    let b0: u8 = (n / 0x1000000 % 0x100) as u8;
    let b1: u8 = (n / 0x10000 % 0x100) as u8;
    let b2: u8 = (n / 0x100 % 0x100) as u8;
    let b3: u8 = (n % 0x100) as u8;
    let h: [u8; 4] = [b0, b1, b2, b3];
    assert(h@ =~= be32_bytes(payload_len as int));
    Ok(h)
}

/// The payload length that a received header announces.
///
/// Refuses a length over [`MAX_FRAME_SIZE`] with `FrameTooLarge`, as the
/// receiving side does before it reads the payload.
pub fn frame_payload_len(header: [u8; 4]) -> (r: Result<usize, IpcClientError>)
    ensures
        be32_value(header@) > MAX_FRAME_SIZE ==> (r matches Err(IpcClientError::FrameTooLarge { bytes, max })
            && bytes == be32_value(header@) && max == MAX_FRAME_SIZE),
        be32_value(header@) <= MAX_FRAME_SIZE ==> r == Ok::<usize, IpcClientError>(be32_value(header@) as usize),
{
    let n: u32 = header[0] as u32 * 0x1000000 + header[1] as u32 * 0x10000 + header[2] as u32 * 0x100
        + header[3] as u32;
    if n > MAX_FRAME_SIZE {
        return Err(IpcClientError::FrameTooLarge { bytes: n as usize, max: MAX_FRAME_SIZE as usize });
    }
    Ok(n as usize)
}

/// The whole frame that carries `payload`: header, then payload.
pub fn encode_frame(payload: &[u8]) -> (r: Result<Vec<u8>, IpcClientError>)
    ensures
        payload@.len() > MAX_FRAME_SIZE ==> (r matches Err(IpcClientError::FrameTooLarge { bytes, max })
            && bytes == payload@.len() && max == MAX_FRAME_SIZE),
        payload@.len() <= MAX_FRAME_SIZE ==> (r matches Ok(v) && v@ == frame_bytes(payload@)),
{
    let h = match frame_header(payload.len()) {
        Ok(h) => h,
        Err(e) => return Err(e),
    };
    let mut out: Vec<u8> = Vec::new();
    let mut i: usize = 0;
    while i < 4
        invariant
            i <= 4,
            out@ == h@.take(i as int),
        decreases 4 - i,
    {
        out.push(h[i]);
        i = i + 1;
        assert(out@ =~= h@.take(i as int));
    }
    let mut j: usize = 0;
    while j < payload.len()
        invariant
            j <= payload@.len(),
            out@ == h@ + payload@.take(j as int),
        decreases payload@.len() - j,
    {
        out.push(payload[j]);
        j = j + 1;
        assert(out@ =~= h@ + payload@.take(j as int));
    }
    assert(payload@.take(payload@.len() as int) =~= payload@);
    Ok(out)
}

/// What reading one frame from the front of a byte buffer finds.
pub enum FrameRead {
    /// The buffer ends before the frame does.
    Incomplete,
    /// A whole frame: its payload, and how many bytes of the buffer it took.
    Complete {
        /// The frame's payload.
        payload: Vec<u8>,
        /// Header plus payload length.
        consumed: usize,
    },
}

/// Reads one frame from the front of `buf`.
///
/// An announced length over [`MAX_FRAME_SIZE`] is refused before any payload
/// is taken, whatever follows the header.
pub fn decode_frame(buf: &[u8]) -> (r: Result<FrameRead, IpcClientError>)
    ensures
        buf@.len() < 4 ==> r matches Ok(FrameRead::Incomplete),
        buf@.len() >= 4 && be32_value(buf@) > MAX_FRAME_SIZE ==> (r matches Err(
            IpcClientError::FrameTooLarge { bytes, max },
        ) && bytes == be32_value(buf@) && max == MAX_FRAME_SIZE),
        buf@.len() >= 4 && be32_value(buf@) <= MAX_FRAME_SIZE && buf@.len() < 4 + be32_value(buf@)
            ==> r matches Ok(FrameRead::Incomplete),
        buf@.len() >= 4 && be32_value(buf@) <= MAX_FRAME_SIZE && buf@.len() >= 4 + be32_value(buf@)
            ==> (r matches Ok(FrameRead::Complete { payload, consumed }) && payload@ == buf@.subrange(
            4,
            4 + be32_value(buf@),
        ) && consumed == 4 + be32_value(buf@)),
{
    if buf.len() < 4 {
        return Ok(FrameRead::Incomplete);
    }
    let header: [u8; 4] = [buf[0], buf[1], buf[2], buf[3]];
    assert(be32_value(header@) == be32_value(buf@));
    let len = match frame_payload_len(header) {
        Ok(n) => n,
        Err(e) => return Err(e),
    };
    if buf.len() - 4 < len {
        return Ok(FrameRead::Incomplete);
    }
    let payload = slice_to_vec(slice_subrange(buf, 4, 4 + len));
    Ok(FrameRead::Complete { payload, consumed: 4 + len })
}

/// A frame read back from a buffer that starts with it gives the payload that
/// was framed, and takes exactly the frame's bytes, whatever follows it.
pub proof fn lemma_frame_roundtrip(payload: Seq<u8>, rest: Seq<u8>)
    requires
        payload.len() <= MAX_FRAME_SIZE,
    ensures
        ({
            let buf = frame_bytes(payload) + rest;
            &&& buf.len() >= 4
            &&& be32_value(buf) == payload.len()
            &&& buf.len() >= 4 + be32_value(buf)
            &&& buf.subrange(4, 4 + be32_value(buf)) == payload
        }),
{
    lemma_be32_roundtrip(payload.len() as int);
    let buf = frame_bytes(payload) + rest;
    let h = be32_bytes(payload.len() as int);
    assert(buf[0] == h[0] && buf[1] == h[1] && buf[2] == h[2] && buf[3] == h[3]);
    assert(buf.subrange(4, 4 + payload.len() as int) =~= payload);
}

/// A header announces exactly the length it was made for, and every length
/// that the sending side accepts is accepted by the receiving side.
pub proof fn lemma_header_roundtrip(len: int)
    requires
        0 <= len <= MAX_FRAME_SIZE,
    ensures
        be32_value(be32_bytes(len)) == len,
        be32_value(be32_bytes(len)) <= MAX_FRAME_SIZE,
{
    lemma_be32_roundtrip(len);
}

} // verus!
