use dustdb::hex::{decode_hex_to_utf8, encode_utf8_to_hex, DecodeError};

#[test]
fn encode_known_value() {
    assert_eq!(
        encode_utf8_to_hex("{\"name\":\"alice\"}"),
        "7b226e616d65223a22616c696365227d"
    );
}

#[test]
fn encode_empty() {
    assert_eq!(encode_utf8_to_hex(""), "");
}

#[test]
fn decode_known_value() {
    assert_eq!(
        decode_hex_to_utf8("7b226e616d65223a22616c696365227d").unwrap(),
        "{\"name\":\"alice\"}"
    );
}

#[test]
fn decode_empty() {
    assert_eq!(decode_hex_to_utf8("").unwrap(), "");
}

#[test]
fn round_trip_ascii() {
    let s = "{\"name\":\"alice\"}";
    assert_eq!(decode_hex_to_utf8(&encode_utf8_to_hex(s)).unwrap(), s);
}

#[test]
fn round_trip_multibyte() {
    let s = "p\u{e4}yload with spaces\nand a newline \u{1f600}";
    assert_eq!(decode_hex_to_utf8(&encode_utf8_to_hex(s)).unwrap(), s);
}

#[test]
fn encode_length_is_twice_byte_length() {
    let s = "h\u{e9}llo";
    assert_eq!(encode_utf8_to_hex(s).len(), 2 * s.len());
}

#[test]
fn decode_odd_length() {
    assert_eq!(decode_hex_to_utf8("abc"), Err(DecodeError::OddLength));
}

#[test]
fn decode_non_hex_digit() {
    assert_eq!(decode_hex_to_utf8("zz"), Err(DecodeError::InvalidDigit));
}

#[test]
fn decode_invalid_utf8() {
    assert_eq!(decode_hex_to_utf8("ff"), Err(DecodeError::InvalidUtf8));
}

#[test]
fn decode_accepts_uppercase_digits() {
    assert_eq!(decode_hex_to_utf8("7B").unwrap(), "{");
}
