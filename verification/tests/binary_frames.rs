use capture_sidecar::binary::encode_binary_frame;

fn valid_args() -> (&'static str, &'static str, u64, u32, u16, u32, u32, Vec<u8>) {
    ("s", "t", 1, 48000, 1, 960, 1, vec![1, 2, 3, 4])
}

#[test]
fn encodes_the_documented_layout() {
    let (sid, tid, seq, rate, ch, fc, pv, pcm) = valid_args();
    let packet = encode_binary_frame(sid, tid, seq, rate, ch, fc, pv, &pcm).unwrap();
    let mut expected: Vec<u8> = Vec::new();
    expected.extend_from_slice(&40u32.to_le_bytes()); // payload: 34 + 1 + 1 + 4
    expected.extend_from_slice(&1u16.to_le_bytes());
    expected.extend_from_slice(b"s");
    expected.extend_from_slice(&1u16.to_le_bytes());
    expected.extend_from_slice(b"t");
    expected.extend_from_slice(&1u64.to_le_bytes());
    expected.extend_from_slice(&48000u32.to_le_bytes());
    expected.extend_from_slice(&1u16.to_le_bytes());
    expected.extend_from_slice(&960u32.to_le_bytes());
    expected.extend_from_slice(&1u32.to_le_bytes());
    expected.extend_from_slice(&0u32.to_le_bytes()); // dropped frames
    expected.extend_from_slice(&4u32.to_le_bytes());
    expected.extend_from_slice(&[1, 2, 3, 4]);
    assert_eq!(packet, expected);
}

#[test]
fn refuses_payloads_over_four_mib() {
    let (sid, tid, seq, rate, ch, fc, pv, _) = valid_args();
    // 34 bytes of header fields + 2 identifier bytes push this over the cap.
    let pcm = vec![0u8; 4 * 1024 * 1024 - 20];
    assert!(encode_binary_frame(sid, tid, seq, rate, ch, fc, pv, &pcm).is_none());
    // The largest payload that still fits is accepted.
    let pcm = vec![0u8; 4 * 1024 * 1024 - 36];
    assert!(encode_binary_frame(sid, tid, seq, rate, ch, fc, pv, &pcm).is_some());
}

#[test]
fn refuses_empty_identifiers_and_zero_parameters() {
    let (sid, tid, seq, rate, ch, fc, pv, pcm) = valid_args();
    assert!(encode_binary_frame("", tid, seq, rate, ch, fc, pv, &pcm).is_none());
    assert!(encode_binary_frame(sid, "", seq, rate, ch, fc, pv, &pcm).is_none());
    assert!(encode_binary_frame(sid, tid, seq, 0, ch, fc, pv, &pcm).is_none());
    assert!(encode_binary_frame(sid, tid, seq, rate, 0, fc, pv, &pcm).is_none());
    assert!(encode_binary_frame(sid, tid, seq, rate, ch, 0, pv, &pcm).is_none());
    assert!(encode_binary_frame(sid, tid, seq, rate, ch, fc, pv, &Vec::new()).is_none());
}

#[test]
fn refuses_identifiers_beyond_their_length_prefix() {
    let (_, tid, seq, rate, ch, fc, pv, pcm) = valid_args();
    let long = "x".repeat(65536);
    assert!(encode_binary_frame(&long, tid, seq, rate, ch, fc, pv, &pcm).is_none());
    let fits = "x".repeat(65535);
    assert!(encode_binary_frame(&fits, tid, seq, rate, ch, fc, pv, &pcm).is_some());
}
