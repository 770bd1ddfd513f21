use party_screen::codec::{compress, decompress, lz_ptr_res, AllocBuf, CompressedResource};

#[test]
fn codec_round_trip_on_representative_buffers() {
    let cases: Vec<Vec<u8>> = vec![
        vec![],
        vec![0],
        vec![7; 300],
        vec![1, 2, 3, 4, 5],
        vec![0, 0, 1, 1, 1, 2, 0, 0, 0, 0],
        (0..=255u8).collect(),
    ];
    for data in cases {
        let packed = compress(&data);
        let unpacked = decompress(&packed).expect("well-formed payload");
        assert_eq!(unpacked, data);
    }
}

#[test]
fn codec_compress_emits_count_byte_pairs() {
    let packed = compress(&vec![9, 9, 9, 4]);
    assert_eq!(packed, vec![3, 9, 1, 4]);
}

#[test]
fn codec_long_runs_split_at_255() {
    let data = vec![5u8; 300];
    let packed = compress(&data);
    assert_eq!(packed, vec![255, 5, 45, 5]);
    assert_eq!(decompress(&packed).unwrap(), data);
}

#[test]
fn codec_malformed_payloads_are_rejected() {
    assert!(decompress(&vec![3]).is_none());
    assert!(decompress(&vec![0, 7]).is_none());
    assert!(decompress(&vec![2, 7, 1]).is_none());
    assert!(decompress(&vec![]).is_some());
}

#[test]
fn codec_resource_rejects_bad_element_size_at_construction() {
    let payload = compress(&vec![1u8; 33]);
    // 33 bytes is not a whole number of 32-byte elements: rejected now,
    // not at load time.
    assert!(CompressedResource::from_ref(payload.clone(), 33, 32).is_none());
    assert!(CompressedResource::from_ref(payload.clone(), 33, 0).is_none());
    assert!(CompressedResource::from_ref(payload, 33, 1).is_some());
    let payload64 = compress(&vec![1u8; 64]);
    assert!(lz_ptr_res(payload64, 64, 32).is_some());
}

#[test]
fn codec_load_checks_declared_length() {
    let payload = compress(&vec![8u8; 64]);
    let good = CompressedResource::from_ref(payload.clone(), 64, 32).unwrap();
    let buf = good.load().expect("declared length matches");
    assert_eq!(buf.size_bytes(), 64);
    assert_eq!(buf.byte_at(0), 8);
    let short = CompressedResource::from_ref(payload, 32, 32).unwrap();
    assert!(short.load().is_none());
}

#[test]
fn codec_alloc_buf_reads_bytes() {
    let b = AllocBuf::new(vec![1, 2, 3, 4], 2);
    assert_eq!(b.size_bytes(), 4);
    assert_eq!(b.byte_at(2), 3);
}
