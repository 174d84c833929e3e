use robinsr::packet::{FrameError, FrameHeader, Packet, HEAD_MAGIC, HEADER_LEN, TAIL_MAGIC};

fn header_of(bytes: &[u8]) -> [u8; 12] {
    let mut h = [0u8; 12];
    h.copy_from_slice(&bytes[0..12]);
    h
}

#[test]
fn encode_writes_magic_lengths_and_payload() {
    let p = Packet { cmd: 0x1234, head: vec![0xaa], body: vec![1, 2, 3] };
    let out = p.encode();
    assert_eq!(
        out,
        vec![
            0x9d, 0x74, 0xc7, 0x14, // head magic
            0x12, 0x34, // cmd
            0x00, 0x01, // head length
            0x00, 0x00, 0x00, 0x03, // body length
            0xaa, // head
            1, 2, 3, // body
            0xd7, 0xa1, 0x52, 0xc8, // tail magic
        ]
    );
}

#[test]
fn encode_empty_packet_is_sixteen_bytes() {
    let p = Packet { cmd: 7, head: Vec::new(), body: Vec::new() };
    let out = p.encode();
    assert_eq!(out.len(), 16);
    assert_eq!(&out[0..4], &HEAD_MAGIC);
    assert_eq!(&out[12..16], &TAIL_MAGIC);
    assert_eq!(HEADER_LEN, 12);
}

#[test]
fn parse_header_reads_big_endian_fields() {
    let h = [0x9d, 0x74, 0xc7, 0x14, 0x01, 0x02, 0x00, 0x05, 0x00, 0x01, 0x00, 0x00];
    let r = Packet::parse_header(&h);
    assert_eq!(r, Ok(FrameHeader { cmd: 0x0102, head_len: 5, body_len: 0x10000 }));
    let fh = r.unwrap();
    assert_eq!(fh.payload_len(), 5 + 0x10000 + 4);
}

#[test]
fn parse_header_refuses_wrong_head_magic() {
    let h = [0x9d, 0x74, 0xc7, 0x15, 0, 1, 0, 0, 0, 0, 0, 0];
    assert_eq!(Packet::parse_header(&h), Err(FrameError::InvalidHeadMagic));
    let z = [0u8; 12];
    assert_eq!(Packet::parse_header(&z), Err(FrameError::InvalidHeadMagic));
}

#[test]
fn from_payload_splits_head_and_body() {
    let fh = FrameHeader { cmd: 9, head_len: 2, body_len: 3 };
    let payload = [10, 11, 20, 21, 22, 0xd7, 0xa1, 0x52, 0xc8];
    let p = Packet::from_payload(&fh, &payload).unwrap();
    assert_eq!(p.cmd, 9);
    assert_eq!(p.head, vec![10, 11]);
    assert_eq!(p.body, vec![20, 21, 22]);
}

#[test]
fn from_payload_refuses_wrong_tail_magic() {
    let fh = FrameHeader { cmd: 9, head_len: 0, body_len: 1 };
    let payload = [5, 0xd7, 0xa1, 0x52, 0xc9];
    assert!(matches!(Packet::from_payload(&fh, &payload), Err(FrameError::InvalidTailMagic)));
}

#[test]
fn frame_roundtrip_gives_back_the_packet() {
    let p = Packet { cmd: 23301, head: vec![1, 2, 3, 4], body: (0..=255u8).collect() };
    let bytes = p.encode();
    let fh = Packet::parse_header(&header_of(&bytes)).unwrap();
    assert_eq!(fh.payload_len() as usize, bytes.len() - 12);
    let q = Packet::from_payload(&fh, &bytes[12..]).unwrap();
    assert_eq!(q.cmd, p.cmd);
    assert_eq!(q.head, p.head);
    assert_eq!(q.body, p.body);
}

#[test]
fn frame_roundtrip_of_empty_packet() {
    let p = Packet { cmd: 0, head: Vec::new(), body: Vec::new() };
    let bytes = p.encode();
    let fh = Packet::parse_header(&header_of(&bytes)).unwrap();
    assert_eq!(fh, FrameHeader { cmd: 0, head_len: 0, body_len: 0 });
    let q = Packet::from_payload(&fh, &bytes[12..]).unwrap();
    assert!(q.head.is_empty());
    assert!(q.body.is_empty());
}
