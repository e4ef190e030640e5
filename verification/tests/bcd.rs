use rustic_yellow::game_state::bcd::BCD;

#[test]
fn test_new_valid_bcd() {
    let bcd = BCD::new([0x12, 0x34, 0x56]);
    assert_eq!(bcd.bytes(), [0x12, 0x34, 0x56]);
}

#[test]
fn test_from_u32() {
    let bcd = BCD::from_u32(123456);
    assert_eq!(bcd.bytes(), [0x12, 0x34, 0x56]);

    let bcd = BCD::from_u32(0);
    assert_eq!(bcd.bytes(), [0x00, 0x00, 0x00]);

    let bcd = BCD::from_u32(999999);
    assert_eq!(bcd.bytes(), [0x99, 0x99, 0x99]);
}

#[test]
fn test_to_u32() {
    let bcd = BCD::new([0x12, 0x34, 0x56]);
    assert_eq!(bcd.to_u32(), 123456);

    let bcd = BCD::new([0x00, 0x00, 0x00]);
    assert_eq!(bcd.to_u32(), 0);

    let bcd = BCD::new([0x99, 0x99, 0x99]);
    assert_eq!(bcd.to_u32(), 999999);
}

#[test]
fn bcd_roundtrip_through_number() {
    for value in [0u32, 1, 9, 10, 99, 100, 4321, 90909, 500000, 999998] {
        assert_eq!(BCD::from_u32(value).to_u32(), value);
    }
}

#[test]
fn bcd_roundtrip_through_bytes() {
    let bytes = [0x07, 0x50, 0x91];
    assert_eq!(BCD::from_u32(BCD::new(bytes).to_u32()).bytes(), bytes);
}
