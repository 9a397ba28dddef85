use character_fsm::wire::to_le_bytes;

#[test]
fn small_values_fill_the_first_byte() {
    assert_eq!(to_le_bytes(0), vec![0, 0, 0, 0]);
    assert_eq!(to_le_bytes(1), vec![1, 0, 0, 0]);
    assert_eq!(to_le_bytes(4), vec![4, 0, 0, 0]);
    assert_eq!(to_le_bytes(255), vec![255, 0, 0, 0]);
}

#[test]
fn larger_values_carry_into_later_bytes() {
    assert_eq!(to_le_bytes(256), vec![0, 1, 0, 0]);
    assert_eq!(to_le_bytes(65536), vec![0, 0, 1, 0]);
    assert_eq!(to_le_bytes(16777216), vec![0, 0, 0, 1]);
    assert_eq!(to_le_bytes(0x12345678), vec![0x78, 0x56, 0x34, 0x12]);
    assert_eq!(to_le_bytes(u32::MAX), vec![255, 255, 255, 255]);
}

#[test]
fn wire_form_is_the_little_endian_encoding() {
    for value in [0u32, 1, 2, 3, 4, 255, 256, 65535, 65536, 0xdeadbeef, u32::MAX] {
        assert_eq!(to_le_bytes(value), value.to_le_bytes());
    }
}
