use insight_reader::pcm::{decode_pcm, encode_container, HEADER_LEN};

#[test]
fn decodes_little_endian_samples() {
    let bytes = [0x01u8, 0x00, 0xff, 0x7f, 0x00, 0x80, 0xff, 0xff];
    assert_eq!(decode_pcm(&bytes), vec![1i16, 32767, -32768, -1]);
}

#[test]
fn odd_trailing_byte_is_ignored() {
    assert_eq!(decode_pcm(&[0x10u8, 0x00, 0x05]), vec![16i16]);
    assert_eq!(decode_pcm(&[0x05u8]), Vec::<i16>::new());
    assert_eq!(decode_pcm(&[]), Vec::<i16>::new());
}

#[test]
fn container_layout_is_exact() {
    let bytes = encode_container(&[1i16, -2], 22050);
    let mut expected: Vec<u8> = Vec::new();
    expected.extend_from_slice(b"RIFF");
    expected.extend_from_slice(&40u32.to_le_bytes());
    expected.extend_from_slice(b"WAVE");
    expected.extend_from_slice(b"fmt ");
    expected.extend_from_slice(&16u32.to_le_bytes());
    expected.extend_from_slice(&1u16.to_le_bytes());
    expected.extend_from_slice(&1u16.to_le_bytes());
    expected.extend_from_slice(&22050u32.to_le_bytes());
    expected.extend_from_slice(&44100u32.to_le_bytes());
    expected.extend_from_slice(&2u16.to_le_bytes());
    expected.extend_from_slice(&16u16.to_le_bytes());
    expected.extend_from_slice(b"data");
    expected.extend_from_slice(&4u32.to_le_bytes());
    expected.extend_from_slice(&[0x01, 0x00, 0xfe, 0xff]);
    assert_eq!(bytes, expected);
    assert_eq!(HEADER_LEN, 44);
}

#[test]
fn empty_container_is_header_only() {
    let bytes = encode_container(&[], 16000);
    assert_eq!(bytes.len(), 44);
    assert_eq!(&bytes[4..8], &36u32.to_le_bytes());
    assert_eq!(&bytes[40..44], &0u32.to_le_bytes());
}

#[test]
fn every_sample_survives_a_round_trip() {
    for s in i16::MIN..=i16::MAX {
        let bytes = encode_container(&[s], 22050);
        assert_eq!(decode_pcm(&bytes[HEADER_LEN..]), vec![s]);
        assert_eq!(decode_pcm(&bytes)[HEADER_LEN / 2], s);
    }
}

#[test]
fn normalised_round_trip_within_one_unit() {
    for s in [i16::MIN, -12345, -1, 0, 1, 12345, i16::MAX] {
        let bytes = encode_container(&[s], 16000);
        let back = decode_pcm(&bytes[HEADER_LEN..])[0];
        let x = back as f32 / 32768.0;
        let q = (x * 32767.0).clamp(-32768.0, 32767.0) as i32;
        assert!((q - s as i32).abs() <= 1);
    }
}
