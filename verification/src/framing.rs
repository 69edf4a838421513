//! Length-prefixed frames: a 4-byte big-endian payload length followed by the payload.
use vstd::prelude::*;

use crate::protocol::MAX_FRAME_LEN;

verus! {

/// Why a frame could not be built or read.
#[derive(Debug, Clone, PartialEq, Eq)]
pub enum FrameError {
    /// The payload length exceeds `MAX_FRAME_LEN`.
    TooLarge { len: u64 },
    /// The bytes end before the frame does.
    Incomplete,
}

/// The 4-byte big-endian encoding of `n` (taken modulo 2^32).
pub open spec fn be32_bytes(n: nat) -> Seq<u8> {
    seq![
        ((n / 0x100_0000) % 0x100) as u8,
        ((n / 0x1_0000) % 0x100) as u8,
        ((n / 0x100) % 0x100) as u8,
        (n % 0x100) as u8,
    ]
}

/// The number that four big-endian bytes stand for.
pub open spec fn be32_value(b: Seq<u8>) -> nat {
    (b[0] as nat) * 0x100_0000 + (b[1] as nat) * 0x1_0000 + (b[2] as nat) * 0x100 + (b[3] as nat)
}

/// The frame that carries `payload`.
pub open spec fn frame_of(payload: Seq<u8>) -> Seq<u8> {
    be32_bytes(payload.len()) + payload
}

/// What reading one frame from the front of `bytes` gives: the payload and the
/// number of bytes the frame takes.
pub open spec fn spec_decode_frame(bytes: Seq<u8>) -> Result<(Seq<u8>, nat), FrameError> {
    if bytes.len() < 4 {
        Err(FrameError::Incomplete)
    } else {
        let n = be32_value(bytes.subrange(0, 4));
        if n > MAX_FRAME_LEN {
            Err(FrameError::TooLarge { len: n as u64 })
        } else if bytes.len() < 4 + n {
            Err(FrameError::Incomplete)
        } else {
            Ok((bytes.subrange(4, 4 + n as int), (4 + n) as nat))
        }
    }
}

proof fn lemma_be32_roundtrip(n: nat)
    requires
        n < 0x1_0000_0000,
    ensures
        be32_value(be32_bytes(n)) == n,
        be32_bytes(n).len() == 4,
{
    let b = be32_bytes(n);
    assert(b[0] as nat == (n / 0x100_0000) % 0x100);
    assert(b[1] as nat == (n / 0x1_0000) % 0x100);
    assert(b[2] as nat == (n / 0x100) % 0x100);
    assert(b[3] as nat == n % 0x100);
    assert(((n / 0x100_0000) % 0x100) * 0x100_0000 + ((n / 0x1_0000) % 0x100) * 0x1_0000
        + ((n / 0x100) % 0x100) * 0x100 + n % 0x100 == n) by (nonlinear_arith)
        requires
            n < 0x1_0000_0000,
    ;
}

/// Frames `payload`: fails exactly when it is longer than `MAX_FRAME_LEN`.
pub fn encode_frame(payload: &[u8]) -> (r: Result<Vec<u8>, FrameError>)
    ensures
        (r is Err) <==> payload@.len() > MAX_FRAME_LEN,
        r matches Ok(v) ==> v@ == frame_of(payload@),
        r matches Err(e) ==> e == (FrameError::TooLarge { len: payload@.len() as u64 }),
{
    let len = payload.len();
    if len > MAX_FRAME_LEN {
        return Err(FrameError::TooLarge { len: len as u64 });
    }
    let n = len as u32;
    let mut out: Vec<u8> = Vec::with_capacity(len + 4);
    out.push((n / 0x100_0000) as u8);
    out.push(((n / 0x1_0000) % 0x100) as u8);
    out.push(((n / 0x100) % 0x100) as u8);
    out.push((n % 0x100) as u8);
    assert(out@ =~= be32_bytes(len as nat));
    let mut i: usize = 0;
    while i < len
        invariant
            i <= len,
            len == payload@.len(),
            out@ =~= be32_bytes(len as nat) + payload@.subrange(0, i as int),
        decreases len - i,
    {
        out.push(payload[i]);
        i = i + 1;
    }
    assert(payload@.subrange(0, len as int) =~= payload@);
    Ok(out)
}

/// Reads the payload length from a frame header; fails exactly when the length
/// exceeds `MAX_FRAME_LEN`.
pub fn decode_frame_len(header: [u8; 4]) -> (r: Result<usize, FrameError>)
    ensures
        (r is Err) <==> be32_value(header@) > MAX_FRAME_LEN,
        r matches Ok(n) ==> n == be32_value(header@),
        r matches Err(e) ==> e == (FrameError::TooLarge { len: be32_value(header@) as u64 }),
{
    let n: u64 = (header[0] as u64) * 0x100_0000 + (header[1] as u64) * 0x1_0000
        + (header[2] as u64) * 0x100 + (header[3] as u64);
    if n > MAX_FRAME_LEN as u64 {
        Err(FrameError::TooLarge { len: n })
    } else {
        Ok(n as usize)
    }
}

/// Reads one frame from the front of `bytes`, returning its payload and the
/// number of bytes it takes; bytes after the frame are left alone.
pub fn decode_frame(bytes: &[u8]) -> (r: Result<(Vec<u8>, usize), FrameError>)
    ensures
        r matches Ok((p, used)) ==> spec_decode_frame(bytes@) == Ok::<(Seq<u8>, nat), FrameError>((p@, used as nat)),
        r matches Err(e) ==> spec_decode_frame(bytes@) == Err::<(Seq<u8>, nat), FrameError>(e),
{
    if bytes.len() < 4 {
        return Err(FrameError::Incomplete);
    }
    let header: [u8; 4] = [bytes[0], bytes[1], bytes[2], bytes[3]];
    assert(header@ =~= bytes@.subrange(0, 4));
    let n = match decode_frame_len(header) {
        Ok(n) => n,
        Err(e) => return Err(e),
    };
    if bytes.len() - 4 < n {
        return Err(FrameError::Incomplete);
    }
    let mut payload: Vec<u8> = Vec::with_capacity(n);
    let mut i: usize = 0;
    while i < n
        invariant
            i <= n,
            4 + n <= bytes@.len(),
            bytes@.len() <= usize::MAX,
            payload@ =~= bytes@.subrange(4, 4 + i as int),
        decreases n - i,
    {
        payload.push(bytes[4 + i]);
        i = i + 1;
    }
    Ok((payload, n + 4))
}

/// A frame read back from the front of any byte stream gives the payload it was
/// built from and takes exactly its own bytes, whatever follows it.
pub proof fn lemma_frame_roundtrip(payload: Seq<u8>, rest: Seq<u8>)
    requires
        payload.len() <= MAX_FRAME_LEN,
    ensures
        spec_decode_frame(frame_of(payload) + rest) == Ok::<(Seq<u8>, nat), FrameError>((payload, (payload.len() + 4) as nat)),
{
    lemma_be32_roundtrip(payload.len());
    let bytes = frame_of(payload) + rest;
    assert(bytes.subrange(0, 4) =~= be32_bytes(payload.len()));
    assert(bytes.subrange(4, 4 + payload.len() as int) =~= payload);
}

/// The length written into a frame header is read back unchanged.
pub proof fn lemma_frame_len_roundtrip(len: nat)
    requires
        len <= MAX_FRAME_LEN,
    ensures
        be32_value(be32_bytes(len)) == len,
{
    lemma_be32_roundtrip(len);
}

} // verus!
