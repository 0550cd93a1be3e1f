use aa_proxy::frame::{
    frame_bytes, message_id, payload_with_id, FrameBuffer, Packet, FRAME_TYPE_FIRST,
    FRAME_TYPE_LAST,
};
use aa_proxy::mitm::{ssl_decapsulate, ssl_encapsulate};
use aa_proxy::proto::{read_varint, write_varint};

fn pkt(channel: u8, flags: u8, final_length: Option<u32>, payload: &[u8]) -> Packet {
    Packet { channel, flags, final_length, payload: payload.to_vec() }
}

#[test]
fn frame_reassembly_scenario() {
    // One FIRST frame with a total length, then a LAST frame, as they arrive
    // on channel 1.
    let bytes = vec![
        0x01, 0x01, 0x00, 0x05, 0x00, 0x00, 0x00, 0x07, b'A', b'B', b'C', b'D', b'E', 0x01, 0x02,
        0x00, 0x02, b'F', b'G',
    ];
    let mut buf = FrameBuffer::new();
    buf.feed(&bytes);
    let p1 = buf.try_pop().expect("first frame");
    assert_eq!(p1.channel, 1);
    assert_eq!(p1.flags, 0x01);
    assert_eq!(p1.final_length, Some(7));
    assert_eq!(p1.payload, b"ABCDE".to_vec());
    let p2 = buf.try_pop().expect("second frame");
    assert_eq!(p2.channel, 1);
    assert_eq!(p2.flags, 0x02);
    assert_eq!(p2.final_length, None);
    assert_eq!(p2.payload, b"FG".to_vec());
    assert!(buf.try_pop().is_none());
}

#[test]
fn frame_round_trip_various_sizes() {
    let sizes = [0usize, 1, 2, 15, 16, 16 * 1024 - 1, 16 * 1024];
    let mut stream: Vec<u8> = Vec::new();
    let mut originals: Vec<Packet> = Vec::new();
    for (i, n) in sizes.iter().enumerate() {
        let payload: Vec<u8> = (0..*n).map(|k| (k % 251) as u8).collect();
        let p = pkt(
            (i + 1) as u8,
            FRAME_TYPE_FIRST | FRAME_TYPE_LAST,
            None,
            &payload,
        );
        stream.extend_from_slice(&frame_bytes(&p));
        originals.push(p);
    }
    let mut buf = FrameBuffer::new();
    buf.feed(&stream);
    for p in &originals {
        let q = buf.try_pop().expect("a frame per packet");
        assert_eq!(q.channel, p.channel);
        assert_eq!(q.flags, p.flags);
        assert_eq!(q.final_length, p.final_length);
        assert_eq!(q.payload, p.payload);
    }
    assert!(buf.try_pop().is_none());
}

#[test]
fn frame_chunked_feed_matches_whole_feed() {
    let payloads: [&[u8]; 3] = [b"hello", b"", b"world-0123456789"];
    let mut stream: Vec<u8> = Vec::new();
    for (i, pl) in payloads.iter().enumerate() {
        let p = pkt(i as u8, FRAME_TYPE_FIRST | FRAME_TYPE_LAST, None, pl);
        stream.extend_from_slice(&frame_bytes(&p));
    }
    // Whole-stream decode.
    let mut whole = FrameBuffer::new();
    whole.feed(&stream);
    let mut whole_out = Vec::new();
    while let Some(p) = whole.try_pop() {
        whole_out.push((p.channel, p.flags, p.payload));
    }
    // One byte at a time, popping eagerly after every chunk.
    let mut chunked = FrameBuffer::new();
    let mut chunked_out = Vec::new();
    for b in &stream {
        chunked.feed(std::slice::from_ref(b));
        while let Some(p) = chunked.try_pop() {
            chunked_out.push((p.channel, p.flags, p.payload));
        }
    }
    assert_eq!(whole_out, chunked_out);
    assert_eq!(whole_out.len(), 3);
}

#[test]
fn frame_with_total_length_round_trip() {
    let p = pkt(9, FRAME_TYPE_FIRST, Some(0xDEADBEEF), b"abc");
    let bytes = frame_bytes(&p);
    assert_eq!(bytes.len(), 8 + 3);
    let mut buf = FrameBuffer::new();
    buf.feed(&bytes);
    let q = buf.try_pop().expect("frame");
    assert_eq!(q.final_length, Some(0xDEADBEEF));
    assert_eq!(q.payload, b"abc".to_vec());
}

#[test]
fn message_id_helpers() {
    let payload = payload_with_id(0x8003, b"xy");
    assert_eq!(payload, vec![0x80, 0x03, b'x', b'y']);
    assert_eq!(message_id(&payload), Some(0x8003));
    assert_eq!(message_id(&[0x01]), None);
}

#[test]
fn varint_round_trip() {
    for n in [0u64, 1, 127, 128, 300, 16383, 16384, u64::MAX] {
        let mut buf: Vec<u8> = Vec::new();
        write_varint(&mut buf, n);
        let (v, used) = read_varint(&buf, 0).expect("decodes");
        assert_eq!(v, n);
        assert_eq!(used, buf.len());
    }
    assert_eq!(read_varint(&[0x80], 0), None);
}

#[test]
fn ssl_encapsulation_round_trip() {
    let records = vec![0x16, 0x03, 0x03, 0x00, 0x05, 1, 2, 3, 4, 5];
    let p = ssl_encapsulate(&records);
    assert_eq!(p.channel, 0);
    assert_eq!(p.flags, FRAME_TYPE_FIRST | FRAME_TYPE_LAST);
    assert_eq!(message_id(&p.payload), Some(3));
    let back = ssl_decapsulate(&p).expect("an encapsulated packet");
    assert_eq!(back, records);
    // A packet under a different id is not decapsulated.
    let other = Packet {
        channel: 0,
        flags: 3,
        final_length: None,
        payload: payload_with_id(1, b""),
    };
    assert!(ssl_decapsulate(&other).is_none());
}
