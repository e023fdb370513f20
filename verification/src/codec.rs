//! The frame codec: pure encode/decode of the length-delimited message
//! format. A frame is one flag octet (always 0: uncompressed), four octets
//! of payload length in big-endian order, and the payload itself.

use vstd::prelude::*;

verus! {

/// Faults of the wire layer: framing faults on the two codec paths, and
/// the one programming-contract fault (reusing a consumed inbound handle).
#[derive(Clone, Copy, Debug, PartialEq, Eq, Structural)]
pub enum CodecError {
    /// Fewer than the five header octets were supplied to `decode_frame`.
    Truncated,
    /// The payload is too long for the four-octet length field.
    Oversize,
    /// The inbound handle was already consumed by an earlier receive.
    AlreadyConsumed,
}

/// The four octets of `n`, most significant first.
pub open spec fn be32(n: u32) -> Seq<u8> {
    seq![
        (n / 0x1000000) as u8,
        ((n / 0x10000) % 256) as u8,
        ((n / 256) % 256) as u8,
        (n % 256) as u8,
    ]
}

/// The numeric value of four big-endian octets.
pub open spec fn be32_val(s: Seq<u8>) -> int
    recommends
        s.len() == 4,
{
    s[0] * 0x1000000 + s[1] * 0x10000 + s[2] * 256 + s[3]
}

/// The wire frame around a serialized payload: flag octet 0, the payload
/// length as four big-endian octets, then the payload.
pub open spec fn frame_of(payload: Seq<u8>) -> Seq<u8>
    recommends
        payload.len() <= u32::MAX,
{
    seq![0u8] + be32(payload.len() as u32) + payload
}

/// Reading back the four big-endian octets of `n` yields `n`.
pub proof fn lemma_be32_val(n: u32)
    ensures
        be32(n).len() == 4,
        be32_val(be32(n)) == n,
{
    assert(((n / 0x1000000) as u8) as u32 * 0x1000000
        + (((n / 0x10000) % 256) as u8) as u32 * 0x10000
        + (((n / 256) % 256) as u8) as u32 * 256
        + ((n % 256) as u8) as u32 == n) by (bit_vector);
}

/// Builds the single frame that carries `payload`: exactly
/// `5 + payload.len()` octets, flag octet 0 first, then the length in
/// big-endian order, then the payload. Fails exactly when the payload
/// does not fit the four-octet length field.
pub fn encode_frame(payload: &[u8]) -> (r: Result<Vec<u8>, CodecError>)
    ensures
        payload@.len() <= u32::MAX ==> (r matches Ok(f) && f@ == frame_of(payload@)),
        payload@.len() > u32::MAX ==> r == Err::<Vec<u8>, CodecError>(CodecError::Oversize),
{
    if payload.len() > u32::MAX as usize {
        return Err(CodecError::Oversize);
    }
    let len: u32 = payload.len() as u32;
    let mut out: Vec<u8> = Vec::new();
    out.push(0u8);
    out.push((len / 0x1000000) as u8);
    out.push(((len / 0x10000) % 256) as u8);
    out.push(((len / 256) % 256) as u8);
    out.push((len % 256) as u8);
    proof {
        assert(out@ =~= seq![0u8] + be32(len));
    }
    let mut i: usize = 0;
    while i < payload.len()
        invariant
            i <= payload@.len(),
            len == payload@.len(),
            out@ == seq![0u8] + be32(len) + payload@.subrange(0, i as int),
        decreases payload@.len() - i,
    {
        out.push(payload[i]);
        proof {
            assert(payload@.subrange(0, i + 1) =~= payload@.subrange(0, i as int).push(
                payload@[i as int],
            ));
        }
        i = i + 1;
    }
    proof {
        assert(payload@.subrange(0, payload@.len() as int) =~= payload@);
        assert(out@ =~= frame_of(payload@));
    }
    Ok(out)
}

/// Strips the five header octets and hands back the payload octets.
/// The flag octet is not validated and the length field is not
/// cross-checked: the caller is responsible for having assembled one
/// complete frame. Fails exactly when fewer than five octets are given.
pub fn decode_frame(bytes: &[u8]) -> (r: Result<Vec<u8>, CodecError>)
    ensures
        bytes@.len() >= 5 ==> (r matches Ok(p) && p@ == bytes@.subrange(5, bytes@.len() as int)),
        bytes@.len() < 5 ==> r == Err::<Vec<u8>, CodecError>(CodecError::Truncated),
{
    if bytes.len() < 5 {
        return Err(CodecError::Truncated);
    }
    let mut out: Vec<u8> = Vec::new();
    let mut i: usize = 5;
    while i < bytes.len()
        invariant
            5 <= i <= bytes@.len(),
            out@ == bytes@.subrange(5, i as int),
        decreases bytes@.len() - i,
    {
        out.push(bytes[i]);
        proof {
            assert(bytes@.subrange(5, i + 1) =~= bytes@.subrange(5, i as int).push(
                bytes@[i as int],
            ));
        }
        i = i + 1;
    }
    Ok(out)
}

/// Appends one received chunk to the accumulated inbound octets. The
/// transport may deliver a body in chunks of any sizes and counts;
/// their concatenation, in arrival order, is what frames one message.
pub fn append_chunk(acc: &mut Vec<u8>, chunk: &[u8])
    ensures
        final(acc)@ == old(acc)@ + chunk@,
{
    let mut i: usize = 0;
    while i < chunk.len()
        invariant
            i <= chunk@.len(),
            acc@ == old(acc)@ + chunk@.subrange(0, i as int),
        decreases chunk@.len() - i,
    {
        acc.push(chunk[i]);
        proof {
            assert(chunk@.subrange(0, i + 1) =~= chunk@.subrange(0, i as int).push(
                chunk@[i as int],
            ));
            assert(old(acc)@ + chunk@.subrange(0, i as int).push(chunk@[i as int]) =~= (old(acc)@
                + chunk@.subrange(0, i as int)).push(chunk@[i as int]));
        }
        i = i + 1;
    }
    proof {
        assert(chunk@.subrange(0, chunk@.len() as int) =~= chunk@);
    }
}

/// Round trip and frame shape: the frame around `payload` has length
/// `5 + payload.len()`, starts with the zero flag octet, carries the
/// payload length in its four big-endian length octets, and yields the
/// payload back when the five header octets are stripped.
pub proof fn lemma_frame_round_trip(payload: Seq<u8>)
    requires
        payload.len() <= u32::MAX,
    ensures
        frame_of(payload).len() == 5 + payload.len(),
        frame_of(payload)[0] == 0,
        frame_of(payload).subrange(1, 5) == be32(payload.len() as u32),
        be32_val(frame_of(payload).subrange(1, 5)) == payload.len(),
        frame_of(payload).subrange(5, frame_of(payload).len() as int) == payload,
{
    lemma_be32_val(payload.len() as u32);
    assert(frame_of(payload).subrange(1, 5) =~= be32(payload.len() as u32));
    assert(frame_of(payload).subrange(5, frame_of(payload).len() as int) =~= payload);
}

} // verus!
