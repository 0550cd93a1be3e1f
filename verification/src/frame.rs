//! The Android Auto wire frame: a 4-byte header (channel, flags, big-endian
//! payload length), an optional 4-byte big-endian total-message length that is
//! present exactly when the frame is a FIRST-but-not-LAST fragment, and the
//! payload bytes.  `FrameBuffer` extracts complete frames from a raw byte
//! stream fed in arbitrary chunks.

use vstd::prelude::*;

verus! {

pub const FRAME_TYPE_FIRST: u8 = 1;
pub const FRAME_TYPE_LAST: u8 = 2;
pub const FRAME_TYPE_MASK: u8 = 3;
pub const FRAME_CONTROL: u8 = 4;
pub const FRAME_ENCRYPTED: u8 = 8;
pub const HEADER_LENGTH: usize = 4;
pub const MAX_PAYLOAD: usize = 0xFFFF;

/// One frame as the proxy passes it around: the header fields plus the
/// payload, without the raw header bytes.
pub struct Packet {
    pub channel: u8,
    pub flags: u8,
    pub final_length: Option<u32>,
    pub payload: Vec<u8>,
}

/// Mathematical image of a `Packet`.
pub struct PacketView {
    pub channel: u8,
    pub flags: u8,
    pub final_length: Option<u32>,
    pub payload: Seq<u8>,
}

impl View for Packet {
    type V = PacketView;

    open spec fn view(&self) -> PacketView {
        PacketView {
            channel: self.channel,
            flags: self.flags,
            final_length: self.final_length,
            payload: self.payload@,
        }
    }
}

impl Clone for Packet {
    fn clone(&self) -> (r: Self)
        ensures
            r@ == self@,
    {
        Packet {
            channel: self.channel,
            flags: self.flags,
            final_length: self.final_length,
            payload: self.payload.clone(),
        }
    }
}

/// A packet that can be put on the wire: the payload length fits the 2-byte
/// field, and the total-length word is present exactly when the flags say
/// FIRST without LAST.
pub open spec fn packet_wf(p: PacketView) -> bool {
    &&& p.payload.len() <= MAX_PAYLOAD
    &&& (p.final_length is Some <==> p.flags & FRAME_TYPE_MASK == FRAME_TYPE_FIRST)
}

/// The bytes of one frame on the wire.
pub open spec fn spec_frame_bytes(p: PacketView) -> Seq<u8> {
    let len = p.payload.len() as int;
    let head = seq![p.channel, p.flags, (len / 0x100) as u8, (len % 0x100) as u8];
    let total = match p.final_length {
        Some(fl) => seq![
            (fl as int / 0x1000000) as u8,
            ((fl as int / 0x10000) % 0x100) as u8,
            ((fl as int / 0x100) % 0x100) as u8,
            (fl as int % 0x100) as u8,
        ],
        None => Seq::<u8>::empty(),
    };
    head + total + p.payload
}

/// Encodes one packet as its wire frame.
pub fn frame_bytes(p: &Packet) -> (r: Vec<u8>)
    requires
        packet_wf(p@),
    ensures
        r@ == spec_frame_bytes(p@),
{
    let len: usize = p.payload.len();
    let mut r: Vec<u8> = Vec::new();
    r.push(p.channel);
    r.push(p.flags);
    r.push((len / 0x100) as u8);
    r.push((len % 0x100) as u8);
    if let Some(fl) = p.final_length {
        r.push((fl / 0x1000000) as u8);
        r.push(((fl / 0x10000) % 0x100) as u8);
        r.push(((fl / 0x100) % 0x100) as u8);
        r.push((fl % 0x100) as u8);
    }
    r.extend_from_slice(p.payload.as_slice());
    proof {
        assert(r@ =~= spec_frame_bytes(p@));
    }
    r
}

/// Header size implied by the flags: 8 bytes for a FIRST-but-not-LAST frame,
/// else 4.
pub open spec fn spec_header_size(flags: u8) -> int {
    if flags & FRAME_TYPE_MASK == FRAME_TYPE_FIRST {
        8
    } else {
        4
    }
}

/// Reads the first complete frame off the front of `s`: the decoded packet
/// and the remaining bytes, or `None` when `s` does not yet hold a whole
/// frame.
pub open spec fn spec_pop_frame(s: Seq<u8>) -> Option<(PacketView, Seq<u8>)> {
    if s.len() < 4 {
        None
    } else {
        let flags = s[1];
        let plen = s[2] as int * 0x100 + s[3] as int;
        let hsize = spec_header_size(flags);
        if s.len() < hsize + plen {
            None
        } else {
            let final_length = if hsize == 8 {
                Some(
                    (s[4] as int * 0x1000000 + s[5] as int * 0x10000 + s[6] as int * 0x100
                        + s[7] as int) as u32,
                )
            } else {
                None
            };
            let p = PacketView {
                channel: s[0],
                flags,
                final_length,
                payload: s.subrange(hsize, hsize + plen),
            };
            Some((p, s.skip(hsize + plen)))
        }
    }
}

/// All complete frames at the front of `s`, in order.
pub open spec fn spec_frames(s: Seq<u8>) -> Seq<PacketView>
    decreases s.len(),
{
    match spec_pop_frame(s) {
        None => Seq::empty(),
        Some((p, rest)) => seq![p] + spec_frames(rest),
    }
}

/// The bytes left after taking every complete frame off the front of `s`.
pub open spec fn spec_leftover(s: Seq<u8>) -> Seq<u8>
    decreases s.len(),
{
    match spec_pop_frame(s) {
        None => s,
        Some((p, rest)) => spec_leftover(rest),
    }
}

proof fn lemma_pop_shrinks(s: Seq<u8>)
    requires
        spec_pop_frame(s) is Some,
    ensures
        spec_pop_frame(s)->Some_0.1.len() < s.len(),
{
}

/// Reassembly buffer: raw bytes go in, complete frames come out.
pub struct FrameBuffer {
    buf: Vec<u8>,
}

impl View for FrameBuffer {
    type V = Seq<u8>;

    closed spec fn view(&self) -> Seq<u8> {
        self.buf@
    }
}

impl FrameBuffer {
    pub fn new() -> (r: FrameBuffer)
        ensures
            r@ == Seq::<u8>::empty(),
    {
        FrameBuffer { buf: Vec::new() }
    }

    /// Appends a chunk of raw bytes read from the device.
    pub fn feed(&mut self, data: &[u8])
        ensures
            final(self)@ == old(self)@ + data@,
    {
        self.buf.extend_from_slice(data);
    }

    /// Takes the first complete frame out of the buffer, if one is there.
    pub fn try_pop(&mut self) -> (r: Option<Packet>)
        ensures
            match spec_pop_frame(old(self)@) {
                Some((p, rest)) => {
                    &&& r is Some
                    &&& r->Some_0@ == p
                    &&& final(self)@ == rest
                },
                None => {
                    &&& r is None
                    &&& final(self)@ == old(self)@
                },
            },
    {
        if self.buf.len() < 4 {
            return None;
        }
        let channel = self.buf[0];
        let flags = self.buf[1];
        let plen: usize = self.buf[2] as usize * 0x100 + self.buf[3] as usize;
        let hsize: usize = if flags & FRAME_TYPE_MASK == FRAME_TYPE_FIRST {
            8
        } else {
            4
        };
        if self.buf.len() < hsize + plen {
            return None;
        }
        let final_length: Option<u32> = if hsize == 8 {
            Some(
                self.buf[4] as u32 * 0x1000000 + self.buf[5] as u32 * 0x10000 + self.buf[6] as u32
                    * 0x100 + self.buf[7] as u32,
            )
        } else {
            None
        };
        let rest = self.buf.split_off(hsize + plen);
        let mut payload = self.buf.split_off(hsize);
        self.buf = rest;
        let p = Packet { channel, flags, final_length, payload };
        proof {
            let (pv, restv) = spec_pop_frame(old(self)@)->Some_0;
            assert(p@.payload =~= pv.payload);
            assert(self@ =~= restv);
        }
        Some(p)
    }
}

/// Popping a frame off encoded bytes gives back the packet that was encoded,
/// whatever follows it.
pub proof fn lemma_pop_of_frame_bytes(p: PacketView, rest: Seq<u8>)
    requires
        packet_wf(p),
    ensures
        spec_pop_frame(spec_frame_bytes(p) + rest) == Some((p, rest)),
{
    let s = spec_frame_bytes(p) + rest;
    let len = p.payload.len() as int;
    assert(s[2] == (len / 0x100) as u8 && s[3] == (len % 0x100) as u8);
    assert(s[2] as int * 0x100 + s[3] as int == len);
    match p.final_length {
        Some(fl) => {
            assert(s[1] & FRAME_TYPE_MASK == FRAME_TYPE_FIRST);
            let b4 = fl as int / 0x1000000;
            let b5 = (fl as int / 0x10000) % 0x100;
            let b6 = (fl as int / 0x100) % 0x100;
            let b7 = fl as int % 0x100;
            assert(b4 * 0x1000000 + b5 * 0x10000 + b6 * 0x100 + b7 == fl as int) by (nonlinear_arith)
                requires
                    b4 == fl as int / 0x1000000,
                    b5 == (fl as int / 0x10000) % 0x100,
                    b6 == (fl as int / 0x100) % 0x100,
                    b7 == fl as int % 0x100,
                    0 <= fl as int <= 0xFFFFFFFF,
            ;
            let (q, r) = spec_pop_frame(s)->Some_0;
            assert(q.payload =~= p.payload);
            assert(r =~= rest);
        },
        None => {
            assert(s[1] & FRAME_TYPE_MASK != FRAME_TYPE_FIRST);
            let (q, r) = spec_pop_frame(s)->Some_0;
            assert(q.payload =~= p.payload);
            assert(r =~= rest);
        },
    }
}

/// The concatenated frames of a packet sequence.
pub open spec fn spec_encode_all(ps: Seq<PacketView>) -> Seq<u8>
    decreases ps.len(),
{
    if ps.len() == 0 {
        Seq::empty()
    } else {
        spec_frame_bytes(ps[0]) + spec_encode_all(ps.skip(1))
    }
}

/// Framing round trip: encoding any sequence of well-formed packets as frames
/// and decoding the byte stream yields the identical packet sequence — same
/// channels, flags and payloads — with no bytes left over.
pub proof fn lemma_frames_round_trip(ps: Seq<PacketView>)
    requires
        forall|i: int| 0 <= i < ps.len() ==> packet_wf(#[trigger] ps[i]),
    ensures
        spec_frames(spec_encode_all(ps)) == ps,
        spec_leftover(spec_encode_all(ps)) == Seq::<u8>::empty(),
    decreases ps.len(),
{
    if ps.len() == 0 {
        assert(spec_encode_all(ps).len() == 0);
        assert(spec_frames(spec_encode_all(ps)) =~= ps);
    } else {
        lemma_pop_of_frame_bytes(ps[0], spec_encode_all(ps.skip(1)));
        lemma_frames_round_trip(ps.skip(1));
        assert(spec_frames(spec_encode_all(ps)) =~= ps);
    }
}

/// Popping is stable under appending more bytes: a complete frame at the
/// front stays the same frame when the stream grows.
proof fn lemma_pop_frame_extend(s: Seq<u8>, c: Seq<u8>)
    requires
        spec_pop_frame(s) is Some,
    ensures
        spec_pop_frame(s + c) == Some(
            (spec_pop_frame(s)->Some_0.0, spec_pop_frame(s)->Some_0.1 + c),
        ),
{
    let (p, rest) = spec_pop_frame(s)->Some_0;
    let t = s + c;
    let (q, trest) = spec_pop_frame(t)->Some_0;
    assert(q.payload =~= p.payload);
    assert(trest =~= rest + c);
}

/// Chunk-boundary insensitivity: feeding `c` after an earlier stream `s`
/// yields, beyond the frames of `s`, exactly the frames of the leftover of
/// `s` followed by `c`.  Decoding is therefore independent of how the byte
/// stream is partitioned into chunks.
pub proof fn lemma_frames_chunked(s: Seq<u8>, c: Seq<u8>)
    ensures
        spec_frames(s + c) == spec_frames(s) + spec_frames(spec_leftover(s) + c),
        spec_leftover(s + c) == spec_leftover(spec_leftover(s) + c),
    decreases s.len(),
{
    match spec_pop_frame(s) {
        None => {
            assert(spec_leftover(s) == s);
            assert(spec_frames(s) == Seq::<PacketView>::empty());
            assert(spec_frames(s + c) =~= spec_frames(s) + spec_frames(spec_leftover(s) + c));
        },
        Some((p, rest)) => {
            lemma_pop_shrinks(s);
            lemma_pop_frame_extend(s, c);
            lemma_frames_chunked(rest, c);
            assert(spec_frames(s + c) =~= spec_frames(s) + spec_frames(spec_leftover(s) + c));
        },
    }
}

/// The two-byte big-endian message id at the front of a payload.
pub open spec fn spec_message_id(payload: Seq<u8>) -> Option<u16> {
    if payload.len() < 2 {
        None
    } else {
        Some((payload[0] as int * 0x100 + payload[1] as int) as u16)
    }
}

/// Reads the message id off the front of a payload, `None` when the payload
/// is shorter than the id.
pub fn message_id(payload: &[u8]) -> (r: Option<u16>)
    ensures
        r == spec_message_id(payload@),
{
    if payload.len() < 2 {
        None
    } else {
        Some(payload[0] as u16 * 0x100 + payload[1] as u16)
    }
}

/// Prefixes a message id to a protobuf body, forming a payload.
pub fn payload_with_id(id: u16, body: &[u8]) -> (r: Vec<u8>)
    ensures
        r@ == seq![(id / 0x100) as u8, (id % 0x100) as u8] + body@,
        spec_message_id(r@) == Some(id),
{
    let mut r: Vec<u8> = Vec::new();
    r.push((id / 0x100) as u8);
    r.push((id % 0x100) as u8);
    r.extend_from_slice(body);
    proof {
        assert(r@ =~= seq![(id / 0x100) as u8, (id % 0x100) as u8] + body@);
        assert((id / 0x100) as int * 0x100 + (id % 0x100) as int == id as int);
    }
    r
}

} // verus!
