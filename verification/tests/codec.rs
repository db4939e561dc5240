use escrow::codec::{push_u64, read_u64};

#[test]
fn read_u64_is_little_endian() {
    let bytes = [0x01u8, 0x02, 0x03, 0x04, 0x05, 0x06, 0x07, 0x08];
    assert_eq!(read_u64(&bytes, 0), 0x0807_0605_0403_0201);
    assert_eq!(read_u64(&bytes, 0), u64::from_le_bytes(bytes));
}

#[test]
fn read_u64_at_an_offset() {
    let bytes = [9u8, 9, 9, 0x10, 0x27, 0, 0, 0, 0, 0, 0, 7];
    assert_eq!(read_u64(&bytes, 3), 10_000);
}

#[test]
fn read_u64_extremes() {
    assert_eq!(read_u64(&[0u8; 8], 0), 0);
    assert_eq!(read_u64(&[0xffu8; 8], 0), u64::MAX);
    assert_eq!(read_u64(&[0, 0, 0, 0, 0, 0, 0, 0x80], 0), 1u64 << 63);
}

#[test]
fn push_u64_appends_eight_bytes() {
    let mut out = vec![0xaau8];
    push_u64(&mut out, 0x0102_0304_0506_0708);
    assert_eq!(out, vec![0xaa, 0x08, 0x07, 0x06, 0x05, 0x04, 0x03, 0x02, 0x01]);
}

#[test]
fn push_then_read_gives_the_number_back() {
    for value in [0u64, 1, 255, 256, 65_535, 1_621_680, u64::MAX - 1, u64::MAX] {
        let mut out = Vec::new();
        push_u64(&mut out, value);
        assert_eq!(out, value.to_le_bytes().to_vec());
        assert_eq!(read_u64(&out, 0), value);
    }
}
