use escrow::address::Address;

#[test]
fn address_keeps_its_bytes() {
    let mut bytes = [0u8; 32];
    for (i, b) in bytes.iter_mut().enumerate() {
        *b = (i * 7) as u8;
    }
    let address = Address::new(bytes);
    assert_eq!(address.to_bytes(), bytes);
    assert_eq!(address.to_vec(), bytes.to_vec());
    assert_eq!(address.bytes, bytes);
}

#[test]
fn address_equality_is_by_bytes() {
    let a = Address::new([3u8; 32]);
    let b = Address::new([3u8; 32]);
    let mut other = [3u8; 32];
    other[31] = 4;
    let c = Address::new(other);
    assert!(a == b);
    assert!(a != c);
    assert_eq!(a, b);
    assert_ne!(a, c);
}

#[test]
fn address_read_takes_thirty_two_bytes_at_the_offset() {
    let mut src = vec![0xeeu8; 2];
    for i in 0..32u8 {
        src.push(i);
    }
    src.push(0xdd);
    let address = Address::read(&src, 2);
    let expected: Vec<u8> = (0..32u8).collect();
    assert_eq!(address.to_vec(), expected);
}
