use age_plugin_yubikey::modhex::{otp_serial_prefix, MODHEX};

#[test]
fn the_alphabet_is_modhex() {
    let alphabet: String = MODHEX.iter().collect();
    assert_eq!(alphabet, "cbdefghijklnrtuv");
}

#[test]
fn serial_zero_is_all_zero_symbols() {
    assert_eq!(otp_serial_prefix(0), "cccccccccccc");
}

#[test]
fn the_most_significant_symbol_comes_first() {
    assert_eq!(otp_serial_prefix(0x0123_4567), "cccccbdefghi");
    assert_eq!(otp_serial_prefix(0x89ab_cdef), "ccccjklnrtuv");
    assert_eq!(otp_serial_prefix(0x1000_0000), "ccccbccccccc");
    assert_eq!(otp_serial_prefix(1), "cccccccccccb");
}

#[test]
fn the_largest_serial_is_all_last_symbols() {
    assert_eq!(otp_serial_prefix(u32::MAX), "ccccvvvvvvvv");
}

#[test]
fn a_decimal_serial_is_written_by_its_bits() {
    // 12345678 is 0x00bc614e.
    assert_eq!(otp_serial_prefix(12_345_678), "ccccccnrhbfu");
}

#[test]
fn every_prefix_has_twelve_symbols() {
    for serial in [0u32, 1, 255, 65_536, 12_345_678, u32::MAX] {
        let prefix = otp_serial_prefix(serial);
        assert_eq!(prefix.chars().count(), 12);
        assert!(prefix.starts_with("cccc"));
    }
}
