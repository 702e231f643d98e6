use arm_decode::get_bits_u32;

#[test]
fn get_bits() {
    let source: u32 = 0b1101_0011_1010;
    assert_eq!(get_bits_u32(source, 0, 4), 0b1010);
    assert_eq!(get_bits_u32(source, 4, 4), 0b0011);
    assert_eq!(get_bits_u32(source, 8, 4), 0b1101);
}

#[test]
fn get_bits_widths() {
    assert_eq!(get_bits_u32(0xDEAD_BEEF, 0, 32), 0xDEAD_BEEF);
    assert_eq!(get_bits_u32(0xDEAD_BEEF, 16, 16), 0xDEAD);
    assert_eq!(get_bits_u32(0xDEAD_BEEF, 31, 1), 1);
    assert_eq!(get_bits_u32(0xDEAD_BEEF, 7, 0), 0);
    assert_eq!(arm_decode::get_bits_u16(0b1101_0011_1010, 4, 8), 0b1101_0011);
    assert_eq!(arm_decode::get_bits_u16(0xBEEF, 0, 16), 0xBEEF);
}

#[test]
fn flags_and_registers() {
    let source: u32 = 0b1101_0011_1010;
    assert!(arm_decode::is_flag_set_u32(source, 1));
    assert!(!arm_decode::is_flag_set_u32(source, 0));
    assert!(arm_decode::is_flag_set_u16(source as u16, 11));
    assert!(!arm_decode::is_flag_set_u16(source as u16, 9));
    assert_eq!(
        arm_decode::get_register_u32(source, 4),
        arm_decode::Register::from_index(0b0011)
    );
    assert_eq!(
        arm_decode::get_register_u16(source as u16, 8),
        arm_decode::Register::from_index(0b1101)
    );
}
