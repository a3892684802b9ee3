use ruspiro_boot::debug::{dump_hex, led_select_register, lit_led};
use ruspiro_boot::register::Operation;

#[test]
fn led_on_pin_seventeen() {
    assert_eq!(led_select_register(17), 0x3f20_0004);
    assert_eq!(
        lit_led(17, 0),
        vec![
            Operation::Write32 { address: 0x3f20_0004, word: 1 << 21 },
            Operation::Write32 { address: 0x3f20_001c, word: 1 << 17 },
        ]
    );
}

#[test]
fn led_selection_keeps_the_other_pins() {
    let operations = lit_led(29, 0xffff_ffff);
    assert_eq!(
        operations,
        vec![
            Operation::Write32 { address: 0x3f20_0008, word: 0xcfff_ffff },
            Operation::Write32 { address: 0x3f20_001c, word: 1 << 29 },
        ]
    );
    let operations = lit_led(0, 0x1234_5678);
    assert_eq!(operations[0], Operation::Write32 { address: 0x3f20_0000, word: 0x1234_5679 });
    assert_eq!(operations[1], Operation::Write32 { address: 0x3f20_001c, word: 1 });
}

#[test]
fn led_on_a_high_pin() {
    assert_eq!(led_select_register(47), 0x3f20_0010);
    assert_eq!(
        lit_led(47, 0),
        vec![
            Operation::Write32 { address: 0x3f20_0010, word: 1 << 21 },
            Operation::Write32 { address: 0x3f20_001d, word: 1 << 15 },
        ]
    );
    assert_eq!(led_select_register(u32::MAX), 0x3f20_0000 + 4 * (u32::MAX / 10));
    assert_eq!(lit_led(u32::MAX, 0).len(), 2);
}

#[test]
fn numbers_are_written_in_capital_hex() {
    assert_eq!(dump_hex(0x1a2b), b"\r\n0x1A2B".to_vec());
    assert_eq!(dump_hex(0xf), b"\r\n0xF".to_vec());
    assert_eq!(dump_hex(0x10), b"\r\n0x10".to_vec());
    assert_eq!(dump_hex(0x9), b"\r\n0x9".to_vec());
    assert_eq!(dump_hex(0xa), b"\r\n0xA".to_vec());
    assert_eq!(dump_hex(0x8_0000), b"\r\n0x80000".to_vec());
    assert_eq!(dump_hex(0x0123_4567_89ab_cdef), b"\r\n0x123456789ABCDEF".to_vec());
    assert_eq!(dump_hex(u64::MAX), b"\r\n0xFFFFFFFFFFFFFFFF".to_vec());
}

#[test]
fn zero_has_no_digits() {
    assert_eq!(dump_hex(0), b"\r\n0x".to_vec());
}

#[test]
fn hex_digits_give_the_number_back() {
    for value in [1u64, 0xff, 0x100, 0xdead_beef, 0x8000_0000_0000_0000, u64::MAX - 1] {
        let text = dump_hex(value);
        let digits = std::str::from_utf8(&text[4..]).unwrap();
        assert_eq!(u64::from_str_radix(digits, 16).unwrap(), value);
        assert_ne!(text[4], b'0');
    }
}
