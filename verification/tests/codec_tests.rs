use bili_live_chat::codec::{
    decode_header, encode_header, fill_datapack_header, frame_packet, split_packs, DataPack,
    FrameError,
};

#[test]
fn test_fill_datapack_header() {
    let mut data_pack: Vec<u8> = vec![0; 32];
    fill_datapack_header(DataPack::Auth, data_pack.as_mut_slice(), 1);
    let expected: [u8; 32] = [
        0, 0, 0, 32, 0, 16, 0, 0, 0, 0, 0, 7, 0, 0, 0, 1, 0, 0, 0, 0, 0, 0, 0, 0, 0, 0, 0, 0, 0,
        0, 0, 0,
    ];
    assert_eq!(&expected[..], data_pack.as_slice());
}

#[test]
fn fill_header_leaves_body_alone() {
    let mut data_pack: Vec<u8> = vec![9; 20];
    fill_datapack_header(DataPack::HeartBeat, data_pack.as_mut_slice(), 5);
    assert_eq!(&data_pack[..16], &[0, 0, 0, 20, 0, 16, 0, 0, 0, 0, 0, 2, 0, 0, 0, 5]);
    assert_eq!(&data_pack[16..], &[9, 9, 9, 9]);
}

#[test]
fn header_round_trip_recovers_fields() {
    for (kind, op) in [
        (DataPack::Auth, 7u32),
        (DataPack::HeartBeat, 2u32),
        (DataPack::Normal, 0u32),
    ] {
        for body_len in [0usize, 1, 10, 4000] {
            let h = encode_header(kind, body_len, 42);
            assert_eq!(h.len(), 16);
            let decoded = decode_header(h.as_slice());
            assert_eq!(decoded.total_length as usize, 16 + body_len);
            assert_eq!(decoded.header_length, 16);
            assert_eq!(decoded.operation_code, op);
            assert_eq!(decoded.sequence, 42);
        }
    }
}

#[test]
fn frame_packet_prefixes_header() {
    let p = frame_packet(DataPack::Normal, b"abc", 3);
    assert_eq!(p.len(), 19);
    let h = decode_header(p.as_slice());
    assert_eq!(h.total_length, 19);
    assert_eq!(h.sequence, 3);
    assert_eq!(&p[16..], b"abc");
}

#[test]
fn split_returns_every_body_in_order() {
    let mut buffer = frame_packet(DataPack::Normal, b"first", 0);
    buffer.extend_from_slice(&frame_packet(DataPack::Normal, b"second body", 1));
    buffer.extend_from_slice(&frame_packet(DataPack::Normal, b"3", 2));
    let packs = split_packs(buffer.as_slice()).unwrap();
    assert_eq!(packs.len(), 3);
    assert_eq!(packs[0].as_slice(), b"first");
    assert_eq!(packs[1].as_slice(), b"second body");
    assert_eq!(packs[2].as_slice(), b"3");
}

#[test]
fn split_of_empty_buffer_is_empty() {
    let packs = split_packs(&[]).unwrap();
    assert_eq!(packs.len(), 0);
}

#[test]
fn split_rejects_truncated_packet() {
    let mut buffer = frame_packet(DataPack::Normal, b"whole", 0);
    buffer.extend_from_slice(&[0, 0, 0, 99, 0, 16]);
    assert_eq!(split_packs(buffer.as_slice()), Err(FrameError::Truncated));
}

#[test]
fn split_rejects_short_length_prefix() {
    assert_eq!(split_packs(&[0, 0]), Err(FrameError::Truncated));
}

#[test]
fn split_rejects_non_advancing_length() {
    // A declared length of 16 (bare header, empty body) must not loop.
    let mut buffer = vec![0u8, 0, 0, 16];
    buffer.extend_from_slice(&[0u8; 12]);
    assert_eq!(split_packs(buffer.as_slice()), Err(FrameError::ZeroLength));
}
