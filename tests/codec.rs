use cleanliness::{convert_from, convert_to, StoreError};

#[test]
fn encodes_little_endian() {
    assert_eq!(convert_to(0), [0, 0, 0, 0]);
    assert_eq!(convert_to(5), [5, 0, 0, 0]);
    assert_eq!(convert_to(0x0403_0201), [1, 2, 3, 4]);
    assert_eq!(convert_to(u32::MAX), [255, 255, 255, 255]);
}

#[test]
fn decodes_little_endian() {
    assert_eq!(convert_from(&vec![7, 0, 0, 0]), Ok(7));
    assert_eq!(convert_from(&vec![1, 2, 3, 4]), Ok(0x0403_0201));
    assert_eq!(convert_from(&vec![255, 255, 255, 255]), Ok(u32::MAX));
}

#[test]
fn codec_round_trip() {
    for x in [0u32, 1, 4, 255, 256, 65_535, 1 << 24, 0x8000_0000, u32::MAX - 1, u32::MAX] {
        assert_eq!(convert_from(&convert_to(x).to_vec()), Ok(x));
    }
}

#[test]
fn decode_rejects_other_lengths() {
    assert_eq!(convert_from(&vec![]), Err(StoreError::Corruption));
    assert_eq!(convert_from(&vec![1, 2, 3]), Err(StoreError::Corruption));
    assert_eq!(convert_from(&vec![1, 2, 3, 4, 5]), Err(StoreError::Corruption));
}
