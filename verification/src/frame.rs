//! The wire frame that carries one message over a connection:
//! a big-endian `u16` request id, a big-endian `u32` payload length,
//! then the payload bytes.
use vstd::prelude::*;
use crate::bytes::append_bytes;

verus! {

/// Number of bytes in a frame header.
pub const HEADER_LEN: usize = 6;

/// Big-endian bytes of a `u16`.
pub open spec fn u16_be(v: u16) -> Seq<u8> {
    seq![(v / 256) as u8, (v % 256) as u8]
}

/// Big-endian bytes of a `u32`.
pub open spec fn u32_be(v: u32) -> Seq<u8> {
    seq![
        (v / 0x100_0000) as u8,
        ((v / 0x1_0000) % 256) as u8,
        ((v / 256) % 256) as u8,
        (v % 256) as u8,
    ]
}

/// The `u16` whose big-endian bytes start `b`.
pub open spec fn be_to_u16(b: Seq<u8>) -> u16 {
    (b[0] * 256 + b[1]) as u16
}

/// The `u32` whose big-endian bytes start `b`.
pub open spec fn be_to_u32(b: Seq<u8>) -> u32 {
    (b[0] * 0x100_0000 + b[1] * 0x1_0000 + b[2] * 256 + b[3]) as u32
}

/// The length field written for a payload of `n` bytes: the length
/// reduced to 32 bits, as a cast to `u32` does.
pub open spec fn wire_len(n: nat) -> u32 {
    (n % 0x1_0000_0000) as u32
}

/// The bytes of the frame that carries `payload` under `req_id`.
pub open spec fn spec_frame(req_id: u16, payload: Seq<u8>) -> Seq<u8> {
    u16_be(req_id) + u32_be(wire_len(payload.len())) + payload
}

/// What a frame header says: the request id and the payload length,
/// or nothing if fewer than six bytes are given.
pub open spec fn spec_header(bytes: Seq<u8>) -> Option<(u16, u32)> {
    if bytes.len() >= 6 {
        Some((be_to_u16(bytes), be_to_u32(bytes.subrange(2, 6))))
    } else {
        None
    }
}

/// Builds the frame that carries `payload` under `req_id`.
pub fn encode_frame(req_id: u16, payload: &[u8]) -> (out: Vec<u8>)
    ensures
        out@ == spec_frame(req_id, payload@),
        out@.len() == HEADER_LEN + payload@.len(),
        out@[0] * 256 + out@[1] == req_id,
        out@[2] * 0x100_0000 + out@[3] * 0x1_0000 + out@[4] * 256 + out@[5]
            == payload@.len() % 0x1_0000_0000,
        out@.subrange(6, out@.len() as int) == payload@,
{
    let len: u32 = (payload.len() as u64 % 0x1_0000_0000) as u32;
    let mut out: Vec<u8> = Vec::new();
    out.push((req_id / 256) as u8);
    out.push((req_id % 256) as u8);
    out.push((len / 0x100_0000) as u8);
    out.push(((len / 0x1_0000) % 256) as u8);
    out.push(((len / 256) % 256) as u8);
    out.push((len % 256) as u8);
    assert(out@ == u16_be(req_id) + u32_be(wire_len(payload@.len())));
    append_bytes(&mut out, payload);
    proof {
        lemma_u16_be_value(req_id);
        lemma_u32_be_value(wire_len(payload@.len()));
        assert(out@.subrange(6, out@.len() as int) =~= payload@);
    }
    out
}

/// Reads the request id and the payload length from the start of `header`.
pub fn decode_header(header: &[u8]) -> (res: Option<(u16, u32)>)
    ensures
        res == spec_header(header@),
        res is Some <==> header@.len() >= HEADER_LEN,
        res matches Some((id, len)) ==> {
            &&& id == header@[0] * 256 + header@[1]
            &&& len == header@[2] * 0x100_0000 + header@[3] * 0x1_0000 + header@[4] * 256 + header@[5]
        },
{
    if header.len() < HEADER_LEN {
        return None;
    }
    let req_id: u16 = (header[0] as u16) * 256 + (header[1] as u16);
    proof {
        lemma_be_to_u16_value(header@);
        lemma_be_to_u32_value(header@.subrange(2, 6));
    }
    let len: u32 = (header[2] as u32) * 0x100_0000 + (header[3] as u32) * 0x1_0000
        + (header[4] as u32) * 256 + (header[5] as u32);
    Some((req_id, len))
}

/// The two bytes written for a `u16` are its high and low byte: their
/// big-endian value is the number.
pub proof fn lemma_u16_be_value(v: u16)
    ensures
        u16_be(v).len() == 2,
        u16_be(v)[0] * 256 + u16_be(v)[1] == v,
{
}

/// The four bytes written for a `u32` are its bytes from the most
/// significant down: their big-endian value is the number.
pub proof fn lemma_u32_be_value(v: u32)
    ensures
        u32_be(v).len() == 4,
        u32_be(v)[0] * 0x100_0000 + u32_be(v)[1] * 0x1_0000 + u32_be(v)[2] * 256 + u32_be(v)[3] == v,
{
}

/// Reading a `u16` takes the first byte as the high byte.
pub proof fn lemma_be_to_u16_value(b: Seq<u8>)
    requires
        b.len() >= 2,
    ensures
        be_to_u16(b) == b[0] * 256 + b[1],
{
}

/// Reading a `u32` takes the bytes from the most significant down.
pub proof fn lemma_be_to_u32_value(b: Seq<u8>)
    requires
        b.len() >= 4,
    ensures
        be_to_u32(b) == b[0] * 0x100_0000 + b[1] * 0x1_0000 + b[2] * 256 + b[3],
{
}

/// The length field is the payload length modulo 2^32; below 2^32 it is the
/// length itself.
pub proof fn lemma_wire_len(n: nat)
    ensures
        wire_len(n) == n % 0x1_0000_0000,
        n <= u32::MAX ==> wire_len(n) == n,
{
}

/// Reading the header of a frame gives back the request id and the
/// payload length it was written with, and the payload follows the header.
pub proof fn lemma_frame_roundtrip(req_id: u16, payload: Seq<u8>)
    requires
        payload.len() <= u32::MAX,
    ensures
        spec_header(spec_frame(req_id, payload)) == Some((req_id, payload.len() as u32)),
        spec_frame(req_id, payload).subrange(6, spec_frame(req_id, payload).len() as int)
            == payload,
{
    let f = spec_frame(req_id, payload);
    let n = payload.len() as u32;
    assert(wire_len(payload.len()) == n);
    assert(be_to_u16(f) == req_id);
    assert(f.subrange(2, 6) == u32_be(n));
    assert(be_to_u32(u32_be(n)) == n);
    assert(f.subrange(6, f.len() as int) =~= payload);
}

/// Writing the id and length a header holds gives back that header.
pub proof fn lemma_header_reencode(bytes: Seq<u8>)
    requires
        bytes.len() >= 6,
    ensures
        u16_be(spec_header(bytes).unwrap().0) + u32_be(spec_header(bytes).unwrap().1)
            == bytes.subrange(0, 6),
{
    let (id, n) = spec_header(bytes).unwrap();
    assert(u16_be(id) + u32_be(n) =~= bytes.subrange(0, 6));
}

} // verus!
