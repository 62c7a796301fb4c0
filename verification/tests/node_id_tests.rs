use soil_sensor_core::node_id::{get_id, id_to_digits};

#[test]
fn parses_decimal_digits() {
    assert_eq!(get_id(b"0123"), Some(0x0123));
    assert_eq!(get_id(b"9999"), Some(0x9999));
}

#[test]
fn parses_lowercase_hex() {
    assert_eq!(get_id(b"abcd"), Some(0xABCD));
    assert_eq!(get_id(b"f00d"), Some(0xF00D));
}

#[test]
fn parses_uppercase_f_only() {
    assert_eq!(get_id(b"00fF"), Some(0x00FF));
    assert_eq!(get_id(b"FFFF"), Some(0xFFFF));
    // Of the uppercase letters only F is an accepted digit.
    assert_eq!(get_id(b"00AB"), None);
    assert_eq!(get_id(b"E000"), None);
}

#[test]
fn rejects_other_characters() {
    assert_eq!(get_id(b"00g0"), None);
    assert_eq!(get_id(b"12 4"), None);
    assert_eq!(get_id(b"-123"), None);
}

#[test]
fn rejects_wrong_length() {
    assert_eq!(get_id(b""), None);
    assert_eq!(get_id(b"123"), None);
    assert_eq!(get_id(b"12345"), None);
}

#[test]
fn renders_lowercase_digits() {
    assert_eq!(id_to_digits(0x12AF), *b"12af");
    assert_eq!(id_to_digits(0x0000), *b"0000");
    assert_eq!(id_to_digits(0xFFFF), *b"ffff");
}

#[test]
fn id_digit_round_trip() {
    for id in [0u16, 1, 0x0123, 0x8000, 0xABCD, 0xFFFF] {
        let digits = id_to_digits(id);
        assert_eq!(get_id(&digits), Some(id));
    }
}
