//! The frame that carries every game message over TCP:
//! a 12-byte header (head magic, command id, head length, body length, all big-endian),
//! the head bytes, the body bytes and a 4-byte tail magic.

use vstd::prelude::*;

verus! {

/// First four bytes of every frame.
pub const HEAD_MAGIC: [u8; 4] = [0x9d, 0x74, 0xc7, 0x14];

/// Last four bytes of every frame.
pub const TAIL_MAGIC: [u8; 4] = [0xd7, 0xa1, 0x52, 0xc8];

/// Number of bytes in the fixed header.
pub const HEADER_LEN: usize = 12;

pub open spec fn head_magic_seq() -> Seq<u8> {
    seq![0x9du8, 0x74u8, 0xc7u8, 0x14u8]
}

pub open spec fn tail_magic_seq() -> Seq<u8> {
    seq![0xd7u8, 0xa1u8, 0x52u8, 0xc8u8]
}

/// Big-endian bytes of a 16-bit value.
pub open spec fn be16(x: u16) -> Seq<u8> {
    seq![(x / 256) as u8, (x % 256) as u8]
}

/// Big-endian bytes of a 32-bit value.
pub open spec fn be32(x: u32) -> Seq<u8> {
    seq![(x / 0x100_0000) as u8, ((x / 0x1_0000) % 256) as u8, ((x / 256) % 256) as u8, (x % 256) as u8]
}

/// The value of two big-endian bytes.
pub open spec fn from_be16(b0: u8, b1: u8) -> u16 {
    (b0 * 256 + b1) as u16
}

/// The value of four big-endian bytes.
pub open spec fn from_be32(b0: u8, b1: u8, b2: u8, b3: u8) -> u32 {
    (b0 * 0x100_0000 + b1 * 0x1_0000 + b2 * 256 + b3) as u32
}

/// The bytes of a frame for command `cmd` with the given head and body.
/// The length fields hold the lengths truncated to 16 and 32 bits.
pub open spec fn frame_bytes(cmd: u16, head: Seq<u8>, body: Seq<u8>) -> Seq<u8> {
    head_magic_seq() + be16(cmd) + be16((head.len() % 0x1_0000) as u16) + be32((body.len() % 0x1_0000_0000) as u32) + head + body
        + tail_magic_seq()
}

/// One game message: its command id, an opaque head and the encoded body.
pub struct Packet {
    pub cmd: u16,
    pub head: Vec<u8>,
    pub body: Vec<u8>,
}

/// The fields of a frame header that passed the head-magic check.
#[derive(Clone, Copy, Debug, PartialEq, Eq)]
pub struct FrameHeader {
    pub cmd: u16,
    pub head_len: u16,
    pub body_len: u32,
}

/// Why a frame was refused.
#[derive(Clone, Copy, Debug, PartialEq, Eq)]
pub enum FrameError {
    InvalidHeadMagic,
    InvalidTailMagic,
}

/// What parsing a 12-byte header gives.
pub open spec fn spec_parse_header(h: Seq<u8>) -> Result<FrameHeader, FrameError>
    recommends
        h.len() == 12,
{
    if h.subrange(0, 4) != head_magic_seq() {
        Err(FrameError::InvalidHeadMagic)
    } else {
        Ok(
            FrameHeader {
                cmd: from_be16(h[4], h[5]),
                head_len: from_be16(h[6], h[7]),
                body_len: from_be32(h[8], h[9], h[10], h[11]),
            },
        )
    }
}

/// Number of payload bytes that follow a header: head, body and tail magic.
pub open spec fn spec_payload_len(h: FrameHeader) -> nat {
    (h.head_len + h.body_len + 4) as nat
}

/// What the payload that follows header `h` decodes to.
pub open spec fn spec_parse_payload(h: FrameHeader, p: Seq<u8>) -> Result<
    (u16, Seq<u8>, Seq<u8>),
    FrameError,
>
    recommends
        p.len() == spec_payload_len(h),
{
    let hl = h.head_len as int;
    let bl = h.body_len as int;
    if p.subrange(hl + bl, p.len() as int) != tail_magic_seq() {
        Err(FrameError::InvalidTailMagic)
    } else {
        Ok((h.cmd, p.subrange(0, hl), p.subrange(hl, hl + bl)))
    }
}

fn append_bytes(out: &mut Vec<u8>, src: &[u8])
    ensures
        final(out)@ == old(out)@ + src@,
{
    let mut i: usize = 0;
    while i < src.len()
        invariant
            i <= src@.len(),
            out@ == old(out)@ + src@.subrange(0, i as int),
        decreases src@.len() - i,
    {
        out.push(src[i]);
        i = i + 1;
        assert(src@.subrange(0, i as int) == src@.subrange(0, (i - 1) as int).push(src@[i - 1]));
    }
    assert(src@.subrange(0, src@.len() as int) == src@);
}

fn push_be16(out: &mut Vec<u8>, x: u16)
    ensures
        final(out)@ == old(out)@ + be16(x),
{
    out.push((x / 256) as u8);
    out.push((x % 256) as u8);
}

fn push_be32(out: &mut Vec<u8>, x: u32)
    ensures
        final(out)@ == old(out)@ + be32(x),
{
    out.push((x / 0x100_0000) as u8);
    out.push(((x / 0x1_0000) % 256) as u8);
    out.push(((x / 256) % 256) as u8);
    out.push((x % 256) as u8);
}

impl Packet {
    /// The frame bytes of this packet. A head longer than 65535 bytes or a body
    /// longer than 2^32 - 1 bytes gets its length field truncated, as in the wire format.
    pub fn encode(&self) -> (out: Vec<u8>)
        ensures
            out@ == frame_bytes(self.cmd, self.head@, self.body@),
    {
        let head_len = self.head.len();
        let body_len = self.body.len();
        let mut out: Vec<u8> = Vec::new();
        assert(HEAD_MAGIC@ == head_magic_seq());
        assert(TAIL_MAGIC@ == tail_magic_seq());
        append_bytes(&mut out, &HEAD_MAGIC);
        push_be16(&mut out, self.cmd);
        push_be16(&mut out, (head_len % 0x1_0000) as u16);
        push_be32(&mut out, (body_len as u64 % 0x1_0000_0000) as u32);
        append_bytes(&mut out, self.head.as_slice());
        append_bytes(&mut out, self.body.as_slice());
        append_bytes(&mut out, &TAIL_MAGIC);
        out
    }
}


fn copy_range(src: &[u8], start: usize, end: usize) -> (out: Vec<u8>)
    requires
        start <= end <= src@.len(),
    ensures
        out@ == src@.subrange(start as int, end as int),
{
    let mut out: Vec<u8> = Vec::new();
    let mut i: usize = start;
    while i < end
        invariant
            start <= i <= end <= src@.len(),
            out@ == src@.subrange(start as int, i as int),
        decreases end - i,
    {
        out.push(src[i]);
        i = i + 1;
    }
    out
}

impl FrameHeader {
    /// Number of bytes that follow the header: head, body and tail magic.
    pub fn payload_len(&self) -> (n: u64)
        ensures
            n == spec_payload_len(*self),
    {
        self.head_len as u64 + self.body_len as u64 + 4
    }
}

impl Packet {
    /// Checks the head magic of a 12-byte frame header and reads its fields.
    pub fn parse_header(header: &[u8; 12]) -> (res: Result<FrameHeader, FrameError>)
        ensures
            res == spec_parse_header(header@),
    {
        assert(header@.len() == 12);
        if header[0] != 0x9d || header[1] != 0x74 || header[2] != 0xc7 || header[3] != 0x14 {
            assert(header@.subrange(0, 4) != head_magic_seq()) by {
                assert(header@.subrange(0, 4)[0] == header@[0]);
                assert(header@.subrange(0, 4)[1] == header@[1]);
                assert(header@.subrange(0, 4)[2] == header@[2]);
                assert(header@.subrange(0, 4)[3] == header@[3]);
            }
            return Err(FrameError::InvalidHeadMagic);
        }
        assert(header@.subrange(0, 4) == head_magic_seq());
        let cmd = header[4] as u16 * 256 + header[5] as u16;
        let head_len = header[6] as u16 * 256 + header[7] as u16;
        let body_len = header[8] as u32 * 0x100_0000 + header[9] as u32 * 0x1_0000
            + header[10] as u32 * 256 + header[11] as u32;
        Ok(FrameHeader { cmd, head_len, body_len })
    }

    /// Splits the payload that follows `header` into head and body and checks the tail magic.
    pub fn from_payload(header: &FrameHeader, payload: &[u8]) -> (res: Result<Packet, FrameError>)
        requires
            payload@.len() == spec_payload_len(*header),
        ensures
            match spec_parse_payload(*header, payload@) {
                Ok((cmd, head, body)) => res matches Ok(p) && p.cmd == cmd && p.head@ == head
                    && p.body@ == body,
                Err(e) => res == Err::<Packet, FrameError>(e),
            },
    {
        let n = payload.len();
        assert(n == header.head_len + header.body_len + 4);
        let hl = header.head_len as usize;
        let bl = header.body_len as usize;
        let tail = hl + bl;
        let ghost t = payload@.subrange(tail as int, payload@.len() as int);
        assert(t.len() == 4);
        if payload[tail] != 0xd7 || payload[tail + 1] != 0xa1 || payload[tail + 2] != 0x52
            || payload[tail + 3] != 0xc8 {
            assert(t != tail_magic_seq()) by {
                assert(t[0] == payload@[tail as int]);
                assert(t[1] == payload@[tail + 1]);
                assert(t[2] == payload@[tail + 2]);
                assert(t[3] == payload@[tail + 3]);
            }
            return Err(FrameError::InvalidTailMagic);
        }
        assert(t == tail_magic_seq());
        let head = copy_range(payload, 0, hl);
        let body = copy_range(payload, hl, tail);
        Ok(Packet { cmd: header.cmd, head, body })
    }
}

/// Reading back a frame gives the packet that was framed: the header of the encoded
/// bytes parses to the command and the two lengths, the rest is exactly the payload
/// that header announces, and the payload splits back into the same head and body.
/// Holds whenever the lengths fit their 16- and 32-bit fields.
pub proof fn lemma_frame_roundtrip(cmd: u16, head: Seq<u8>, body: Seq<u8>)
    requires
        head.len() <= u16::MAX,
        body.len() <= u32::MAX,
    ensures
        ({
            let f = frame_bytes(cmd, head, body);
            let h = FrameHeader { cmd, head_len: head.len() as u16, body_len: body.len() as u32 };
            &&& f.len() >= 12
            &&& spec_parse_header(f.subrange(0, 12)) == Ok::<FrameHeader, FrameError>(h)
            &&& spec_payload_len(h) == f.len() - 12
            &&& spec_parse_payload(h, f.subrange(12, f.len() as int)) == Ok::<
                (u16, Seq<u8>, Seq<u8>),
                FrameError,
            >((cmd, head, body))
        }),
{
    let f = frame_bytes(cmd, head, body);
    let hl = head.len() as u16;
    let bl = body.len() as u32;
    assert((head.len() % 0x1_0000) as u16 == hl);
    assert((body.len() % 0x1_0000_0000) as u32 == bl);
    let hd = f.subrange(0, 12);
    assert(hd == head_magic_seq() + be16(cmd) + be16(hl) + be32(bl));
    assert(hd.subrange(0, 4) == head_magic_seq());
    assert(from_be16(hd[4], hd[5]) == cmd);
    assert(from_be16(hd[6], hd[7]) == hl);
    assert(from_be32(hd[8], hd[9], hd[10], hd[11]) == bl);
    let p = f.subrange(12, f.len() as int);
    assert(p == head + body + tail_magic_seq());
    assert(p.subrange(0, hl as int) == head);
    assert(p.subrange(hl as int, hl + bl) == body);
    assert(p.subrange(hl + bl, p.len() as int) == tail_magic_seq());
}

} // verus!
