use bili_live_chat::compress::zlib_dec;
use std::io::Write;

fn zlib_compress(data: &[u8]) -> Vec<u8> {
    let mut enc =
        flate2::write::ZlibEncoder::new(Vec::new(), flate2::Compression::default());
    enc.write_all(data).unwrap();
    enc.finish().unwrap()
}

#[test]
fn inflate_undoes_compression() {
    let cases: Vec<Vec<u8>> = vec![
        Vec::new(),
        b"hello world".to_vec(),
        vec![0u8; 4096],
        (0u32..2000).map(|i| (i * 7 % 251) as u8).collect(),
    ];
    for original in cases {
        let compressed = zlib_compress(original.as_slice());
        let inflated = zlib_dec(compressed.as_slice()).unwrap();
        assert_eq!(inflated, original);
    }
}

#[test]
fn inflate_rejects_corrupt_stream() {
    assert!(zlib_dec(b"definitely not a zlib stream").is_err());
}
