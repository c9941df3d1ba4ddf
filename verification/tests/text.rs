use modbus_mqtt_bridge::text::{is_white_space, parse_number, parse_numbers};

#[test]
fn white_space_is_that_of_unicode() {
    for code in 0..=0x10FFFFu32 {
        if let Some(c) = char::from_u32(code) {
            assert_eq!(is_white_space(c), c.is_whitespace(), "{:x}", code);
        }
    }
}

#[test]
fn numbers_are_read_as_std_reads_them() {
    let texts = [
        "", "+", "-", "0", "-0", "+0", "00012", "+00012", "++1", "+-1", "1+", "7", " 7", "7 ", "7.0",
        "0x10", "255", "256", "65535", "65536", "4294967295", "4294967296", "1_000",
        "18446744073709551615", "18446744073709551616", "99999999999999999999999", "\u{663}", "1e3",
        "00000000000000000000000000000000000000001",
    ];
    for text in texts {
        assert_eq!(parse_number(text, u64::MAX), text.parse::<u64>().ok(), "{}", text);
        assert_eq!(
            parse_number(text, u32::MAX as u64),
            text.parse::<u32>().ok().map(u64::from),
            "{}",
            text
        );
        assert_eq!(
            parse_number(text, u16::MAX as u64),
            text.parse::<u16>().ok().map(u64::from),
            "{}",
            text
        );
        assert_eq!(
            parse_number(text, u8::MAX as u64),
            text.parse::<u8>().ok().map(u64::from),
            "{}",
            text
        );
    }
}

#[test]
fn lists_of_numbers_are_read() {
    assert_eq!(parse_numbers("9600,4800"), vec![9600, 4800]);
    assert_eq!(parse_numbers(" 9600 ,\t4800\n"), vec![9600, 4800]);
    assert_eq!(parse_numbers("9600,,x,-1,4294967296,+7,\u{a0}8\u{2003}"), vec![9600, 7, 8]);
    assert_eq!(parse_numbers("96 00"), Vec::<u32>::new());
    assert_eq!(parse_numbers(""), Vec::<u32>::new());
    assert_eq!(parse_numbers(","), Vec::<u32>::new());
    assert_eq!(parse_numbers("9600,9600"), vec![9600, 9600]);
}
