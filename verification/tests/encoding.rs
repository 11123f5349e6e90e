use pumpfun::encoding::{bytes_to_vec, put_bytes, put_u16, put_u64};

#[test]
fn integers_are_written_least_significant_byte_first() {
    let mut out = vec![0xaa];
    put_u64(&mut out, 0x0102030405060708);
    assert_eq!(out, vec![0xaa, 8, 7, 6, 5, 4, 3, 2, 1]);
    put_u16(&mut out, 0x1234);
    assert_eq!(&out[9..], &[0x34, 0x12]);
    let mut out = Vec::new();
    put_u64(&mut out, 0);
    put_u64(&mut out, u64::MAX);
    put_u16(&mut out, u16::MAX);
    put_u16(&mut out, 255);
    put_u16(&mut out, 256);
    let mut expected = vec![0u8; 8];
    expected.extend_from_slice(&[255u8; 10]);
    expected.extend_from_slice(&[255, 0, 0, 1]);
    assert_eq!(out, expected);
}

#[test]
fn integers_are_written_as_std_writes_them() {
    for value in [0u64, 1, 255, 256, 65_535, 65_536, 1 << 32, (1 << 56) + 7, u64::MAX - 1, u64::MAX] {
        let mut out = Vec::new();
        put_u64(&mut out, value);
        assert_eq!(out, value.to_le_bytes());
        let mut out = Vec::new();
        put_u16(&mut out, value as u16);
        assert_eq!(out, (value as u16).to_le_bytes());
    }
}

#[test]
fn bytes_are_appended_and_copied() {
    let mut out = vec![1, 2];
    put_bytes(&mut out, &[3, 4, 5]);
    put_bytes(&mut out, &[]);
    assert_eq!(out, vec![1, 2, 3, 4, 5]);
    assert_eq!(bytes_to_vec(&[9, 8, 7]), vec![9, 8, 7]);
    assert_eq!(bytes_to_vec(&[]), Vec::<u8>::new());
}
