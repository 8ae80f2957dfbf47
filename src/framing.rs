use vstd::prelude::*;
use vstd::slice::{slice_subrange, slice_to_vec};
use crate::error::TransferError;

verus! {

/// The largest message payload a frame may announce.
pub const MAX_MESSAGE_LEN: usize = 1048576;

/// The four bytes of `n`, most significant first.
pub open spec fn be32_bytes(n: u32) -> Seq<u8> {
    seq![(n >> 24u32) as u8, (n >> 16u32) as u8, (n >> 8u32) as u8, n as u8]
}

/// The number that four bytes encode, most significant first.
pub open spec fn be32_value(b: Seq<u8>) -> u32 {
    ((b[0] as u32) << 24u32) | ((b[1] as u32) << 16u32) | ((b[2] as u32) << 8u32) | (b[3] as u32)
}

/// What a received buffer holds: the payload of the frame at its start, or
/// a framing error when the buffer is too short or the length too large.
pub open spec fn unframe_spec(buf: Seq<u8>) -> Result<Seq<u8>, TransferError> {
    if buf.len() < 4 {
        Err(TransferError::FramingError)
    } else {
        let n = be32_value(buf.subrange(0, 4)) as int;
        if n > MAX_MESSAGE_LEN as int || buf.len() < 4 + n {
            Err(TransferError::FramingError)
        } else {
            Ok(buf.subrange(4, 4 + n))
        }
    }
}

/// Frames a payload: its length in four bytes, most significant first, then
/// the payload itself.
pub fn encode_frame(payload: &[u8]) -> (r: Result<Vec<u8>, TransferError>)
    ensures
        payload@.len() > MAX_MESSAGE_LEN ==> r == Err::<Vec<u8>, TransferError>(TransferError::FramingError),
        payload@.len() <= MAX_MESSAGE_LEN ==> r is Ok && r->Ok_0@ == be32_bytes(payload@.len() as u32) + payload@,
{
    if payload.len() > MAX_MESSAGE_LEN {
        return Err(TransferError::FramingError);
    }
    let n = payload.len() as u32;
    let mut out: Vec<u8> = Vec::new();
    out.push((n >> 24u32) as u8);
    out.push((n >> 16u32) as u8);
    out.push((n >> 8u32) as u8);
    out.push(n as u8);
    assert(out@ =~= be32_bytes(n));
    let mut i: usize = 0;
    while i < payload.len()
        invariant
            i <= payload@.len(),
            out@ == be32_bytes(n) + payload@.subrange(0, i as int),
        decreases payload@.len() - i,
    {
        out.push(payload[i]);
        i = i + 1;
        assert(out@ =~= be32_bytes(n) + payload@.subrange(0, i as int));
    }
    assert(payload@.subrange(0, payload@.len() as int) =~= payload@);
    Ok(out)
}

/// Reads the length announced by a frame header, refusing one over the limit.
pub fn frame_length(header: &[u8; 4]) -> (r: Result<usize, TransferError>)
    ensures
        be32_value(header@) > MAX_MESSAGE_LEN ==> r == Err::<usize, TransferError>(TransferError::FramingError),
        be32_value(header@) <= MAX_MESSAGE_LEN ==> r == Ok::<usize, TransferError>(be32_value(header@) as usize),
{
    let n: u32 = ((header[0] as u32) << 24u32) | ((header[1] as u32) << 16u32) | ((header[2] as u32) << 8u32)
        | (header[3] as u32);
    if n as usize > MAX_MESSAGE_LEN {
        Err(TransferError::FramingError)
    } else {
        Ok(n as usize)
    }
}

/// Reads the payload of the frame at the start of a buffer; bytes after it
/// are left alone.
pub fn decode_frame(buf: &[u8]) -> (r: Result<Vec<u8>, TransferError>)
    ensures
        match unframe_spec(buf@) {
            Ok(p) => r is Ok && r->Ok_0@ == p,
            Err(e) => r == Err::<Vec<u8>, TransferError>(e),
        },
{
    if buf.len() < 4 {
        return Err(TransferError::FramingError);
    }
    let header: [u8; 4] = [buf[0], buf[1], buf[2], buf[3]];
    assert(header@ =~= buf@.subrange(0, 4));
    let n = match frame_length(&header) {
        Ok(n) => n,
        Err(e) => return Err(e),
    };
    if buf.len() - 4 < n {
        return Err(TransferError::FramingError);
    }
    let body = slice_subrange(buf, 4, 4 + n);
    Ok(slice_to_vec(body))
}

/// A framed payload reads back as itself.
pub proof fn lemma_frame_round_trip(payload: Seq<u8>)
    requires
        payload.len() <= MAX_MESSAGE_LEN,
    ensures
        unframe_spec(be32_bytes(payload.len() as u32) + payload) == Ok::<Seq<u8>, TransferError>(payload),
{
    let n = payload.len() as u32;
    let buf = be32_bytes(n) + payload;
    assert(buf.subrange(0, 4) =~= be32_bytes(n));
    lemma_be32_round_trip(n);
    assert(buf.subrange(4, 4 + n as int) =~= payload);
}

/// Four bytes written from a number read back as that number.
pub proof fn lemma_be32_round_trip(n: u32)
    ensures
        be32_value(be32_bytes(n)) == n,
{
    let b = be32_bytes(n);
    assert(((((n >> 24u32) as u8) as u32) << 24u32) | ((((n >> 16u32) as u8) as u32) << 16u32)
        | ((((n >> 8u32) as u8) as u32) << 8u32) | ((n as u8) as u32) == n) by (bit_vector);
}

} // verus!
