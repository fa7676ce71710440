//! Byte-level layout of one wire frame: a 16-bit tag and a 16-bit payload
//! length, both big-endian, followed by exactly that many payload bytes.

use vstd::prelude::*;

verus! {

/// Largest payload byte count the 16-bit length field can carry.
pub const MAX_PAYLOAD_LEN: usize = 65535;

/// The value of a big-endian 16-bit integer with bytes `hi`, `lo`.
pub open spec fn be16(hi: u8, lo: u8) -> u16 {
    (hi * 256 + lo) as u16
}

/// High byte of `x` in big-endian order.
pub open spec fn be_hi(x: u16) -> u8 {
    (x / 256) as u8
}

/// Low byte of `x` in big-endian order.
pub open spec fn be_lo(x: u16) -> u8 {
    (x % 256) as u8
}

/// The frame carrying `payload` under `tag`: tag bytes, length bytes, payload.
pub open spec fn frame_bytes(tag: u16, payload: Seq<u8>) -> Seq<u8>
    recommends
        payload.len() <= MAX_PAYLOAD_LEN,
{
    seq![
        be_hi(tag),
        be_lo(tag),
        be_hi(payload.len() as u16),
        be_lo(payload.len() as u16),
    ] + payload
}

/// The tag a frame's header declares.
pub open spec fn frame_tag(f: Seq<u8>) -> u16
    recommends
        f.len() >= 4,
{
    be16(f[0], f[1])
}

/// The payload length a frame's header declares.
pub open spec fn frame_len(f: Seq<u8>) -> u16
    recommends
        f.len() >= 4,
{
    be16(f[2], f[3])
}

/// The payload bytes that follow a frame's header.
pub open spec fn frame_payload(f: Seq<u8>) -> Seq<u8>
    recommends
        f.len() >= 4,
{
    f.subrange(4, f.len() as int)
}

/// A frame is well formed when its declared length matches the bytes present.
pub open spec fn frame_wf(f: Seq<u8>) -> bool {
    &&& f.len() >= 4
    &&& f.len() == 4 + frame_len(f)
}

/// Splits `x` into its big-endian bytes.
pub fn u16_to_be(x: u16) -> (r: (u8, u8))
    ensures
        r.0 == be_hi(x),
        r.1 == be_lo(x),
        be16(r.0, r.1) == x,
{
    proof {
        lemma_be16_split(x);
    }
    ((x / 256) as u8, (x % 256) as u8)
}

/// Reads a big-endian 16-bit integer from two bytes.
pub fn u16_from_be(hi: u8, lo: u8) -> (r: u16)
    ensures
        r == be16(hi, lo),
{
    (hi as u16) * 256 + (lo as u16)
}

/// Splitting a 16-bit value into big-endian bytes and reading them back is
/// the identity, so a tag or length survives the trip through the header.
pub proof fn lemma_be16_split(x: u16)
    ensures
        be16(be_hi(x), be_lo(x)) == x,
{
    assert(be16(be_hi(x), be_lo(x)) == x) by (bit_vector);
}

/// Parses a frame header: the tag from the first two bytes and the payload
/// length from the next two, both big-endian.
pub fn read_header(header: &[u8; 4]) -> (r: (u16, u16))
    ensures
        r.0 == frame_tag(header@),
        r.1 == frame_len(header@),
{
    let tag = u16_from_be(header[0], header[1]);
    let len = u16_from_be(header[2], header[3]);
    (tag, len)
}

/// Builds the frame for `payload` under `tag`.
pub fn encode_frame(tag: u16, payload: &[u8]) -> (r: Vec<u8>)
    requires
        payload@.len() <= MAX_PAYLOAD_LEN,
    ensures
        r@ == frame_bytes(tag, payload@),
        frame_wf(r@),
        frame_tag(r@) == tag,
        frame_payload(r@) == payload@,
{
    let len = payload.len() as u16;
    let (tag_hi, tag_lo) = u16_to_be(tag);
    let (len_hi, len_lo) = u16_to_be(len);
    let mut out: Vec<u8> = Vec::new();
    out.push(tag_hi);
    out.push(tag_lo);
    out.push(len_hi);
    out.push(len_lo);
    out.extend_from_slice(payload);
    proof {
        assert(out@ =~= frame_bytes(tag, payload@));
        lemma_frame_round_trip(tag, payload@);
    }
    out
}

/// Round trip at the frame level: parsing the frame built from `tag` and
/// `payload` recovers the tag, the payload length, and the payload bytes.
pub proof fn lemma_frame_round_trip(tag: u16, payload: Seq<u8>)
    requires
        payload.len() <= MAX_PAYLOAD_LEN,
    ensures
        frame_bytes(tag, payload).len() == 4 + payload.len(),
        frame_wf(frame_bytes(tag, payload)),
        frame_tag(frame_bytes(tag, payload)) == tag,
        frame_len(frame_bytes(tag, payload)) == payload.len(),
        frame_payload(frame_bytes(tag, payload)) == payload,
{
    let f = frame_bytes(tag, payload);
    lemma_be16_split(tag);
    lemma_be16_split(payload.len() as u16);
    assert(frame_payload(f) =~= payload);
}

/// The tag bytes of a frame depend on the tag alone: every encoding of a
/// variant carries the same two leading bytes, whatever its payload.
pub proof fn lemma_tag_bytes_stable(tag: u16, payload1: Seq<u8>, payload2: Seq<u8>)
    ensures
        frame_bytes(tag, payload1)[0] == frame_bytes(tag, payload2)[0],
        frame_bytes(tag, payload1)[1] == frame_bytes(tag, payload2)[1],
        frame_bytes(tag, payload1)[0] == be_hi(tag),
        frame_bytes(tag, payload1)[1] == be_lo(tag),
{
}

} // verus!
