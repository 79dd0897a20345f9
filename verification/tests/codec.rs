use termatama::rom::{
    decode_rom, detect_encoding, pack_12bit_le, unpack_12bit_le, unpack_16bit_container_be,
    unpack_16bit_container_le, RomDecodeError, RomEncoding,
};

#[test]
fn packed_roundtrip() {
    let words = vec![0x000, 0x123, 0xABC, 0xFFF, 0x456, 0x789];
    let bytes = pack_12bit_le(&words);
    let restored = unpack_12bit_le(&bytes).expect("unpack");
    assert_eq!(restored[..words.len()], words);
}

#[test]
fn packed_example_exact_bytes() {
    let words = vec![0x000, 0x123, 0xABC, 0xFFF, 0x456, 0x789];
    let bytes = pack_12bit_le(&words);
    assert_eq!(
        bytes,
        vec![0x00, 0x30, 0x12, 0xBC, 0xFA, 0xFF, 0x56, 0x94, 0x78]
    );
    let restored = unpack_12bit_le(&bytes).expect("unpack");
    assert_eq!(restored, words);
}

#[test]
fn packed_roundtrip_odd_count_pads_with_zero() {
    let words = vec![0xAAA, 0xBBB, 0xCCC];
    let bytes = pack_12bit_le(&words);
    assert_eq!(bytes.len(), 6);
    let restored = unpack_12bit_le(&bytes).expect("unpack");
    assert_eq!(restored, vec![0xAAA, 0xBBB, 0xCCC, 0x000]);
}

#[test]
fn detect_empty_is_error() {
    match detect_encoding(&[]) {
        Err(RomDecodeError::InvalidLength { len }) => assert_eq!(len, 0),
        other => panic!("expected invalid length, got {other:?}"),
    }
}

#[test]
fn detect_padded_when_even_bytes_have_zero_high_nibbles() {
    // 2-byte aligned, every even-indexed byte has a zero upper nibble.
    let bytes = [0x01, 0xFF, 0x0A, 0x23];
    assert_eq!(detect_encoding(&bytes).unwrap(), RomEncoding::Padded16Le12);
    // Length 6 satisfies both alignments; the padded check wins.
    let both = [0x0F, 0xFF, 0x00, 0x00, 0x01, 0x02];
    assert_eq!(detect_encoding(&both).unwrap(), RomEncoding::Padded16Le12);
}

#[test]
fn detect_packed_when_padded_test_fails() {
    // 3-byte aligned and not 2-byte aligned.
    assert_eq!(
        detect_encoding(&[0xFF, 0xFF, 0xFF]).unwrap(),
        RomEncoding::Packed12Le
    );
    // 6 bytes but the high-nibble test fails: falls to packed.
    assert_eq!(
        detect_encoding(&[0xF0, 0, 0, 0, 0, 0]).unwrap(),
        RomEncoding::Packed12Le
    );
}

#[test]
fn detect_unfit_length_is_error() {
    match detect_encoding(&[0xF0, 0x00, 0x00, 0x00]) {
        Err(RomDecodeError::InvalidLength { len }) => assert_eq!(len, 4),
        other => panic!("expected invalid length, got {other:?}"),
    }
    match detect_encoding(&[0xFF, 0xFF, 0xFF, 0xFF, 0xFF]) {
        Err(RomDecodeError::InvalidLength { len }) => assert_eq!(len, 5),
        other => panic!("expected invalid length, got {other:?}"),
    }
}

#[test]
fn decode_padded_image() {
    let bytes = [0x01, 0xAB, 0x0F, 0x00];
    let words = decode_rom(&bytes).expect("decode");
    assert_eq!(words, vec![0x1AB, 0xF00]);
}

#[test]
fn decode_packed_image() {
    // Fails the padded test (first byte has a high nibble), is 3-byte
    // aligned: packed, so 3 bytes give two words.
    let bytes = [0xF1, 0x52, 0x34];
    let words = decode_rom(&bytes).expect("decode");
    assert_eq!(words, vec![0x2F1, 0x345]);
}

#[test]
fn decode_empty_is_error() {
    assert!(matches!(
        decode_rom(&[]),
        Err(RomDecodeError::InvalidLength { len: 0 })
    ));
}

#[test]
fn unpack_12bit_le_rejects_unaligned() {
    match unpack_12bit_le(&[0, 0, 0, 0]) {
        Err(RomDecodeError::InvalidLength { len }) => assert_eq!(len, 4),
        other => panic!("expected invalid length, got {other:?}"),
    }
}

#[test]
fn unpack_16bit_le_words() {
    let words = unpack_16bit_container_le(&[0x01, 0xAB]).expect("unpack");
    assert_eq!(words, vec![0x1AB]);
    // The upper nibble of the first byte is masked away.
    let masked = unpack_16bit_container_le(&[0xF1, 0xAB]).expect("unpack");
    assert_eq!(masked, vec![0x1AB]);
    assert!(matches!(
        unpack_16bit_container_le(&[0, 0, 0]),
        Err(RomDecodeError::InvalidLength { len: 3 })
    ));
}

#[test]
fn unpack_16bit_be_words() {
    let words = unpack_16bit_container_be(&[0x01, 0xAB]).expect("unpack");
    assert_eq!(words, vec![0x1AB]);
    // Masked to 12 bits.
    let masked = unpack_16bit_container_be(&[0xFF, 0xFF]).expect("unpack");
    assert_eq!(masked, vec![0xFFF]);
    assert!(matches!(
        unpack_16bit_container_be(&[0]),
        Err(RomDecodeError::InvalidLength { len: 1 })
    ));
}
