use pty_sessions::text::{decode_chunk, push_decimal, with_decimal, with_detail};

#[test]
fn decimal_of_zero_is_a_single_digit() {
    assert_eq!(with_decimal("", 0), "0");
}

#[test]
fn decimal_of_single_digits() {
    assert_eq!(with_decimal("", 7), "7");
    assert_eq!(with_decimal("", 9), "9");
}

#[test]
fn decimal_has_no_leading_zero() {
    assert_eq!(with_decimal("", 10), "10");
    assert_eq!(with_decimal("", 100), "100");
    assert_eq!(with_decimal("", 1005), "1005");
}

#[test]
fn decimal_of_the_largest_identifier() {
    assert_eq!(with_decimal("", u32::MAX), "4294967295");
}

#[test]
fn decimal_agrees_with_std_formatting() {
    let samples: [u32; 12] = [0, 1, 9, 10, 11, 99, 100, 4242, 65535, 65536, 1_000_000_000, u32::MAX];
    for n in samples {
        assert_eq!(with_decimal("", n), format!("{}", n));
    }
}

#[test]
fn push_decimal_appends_to_what_is_there() {
    let mut text = String::from("pid=");
    push_decimal(&mut text, 314);
    assert_eq!(text, "pid=314");
    push_decimal(&mut text, 0);
    assert_eq!(text, "pid=3140");
}

#[test]
fn with_decimal_keeps_the_prefix() {
    assert_eq!(with_decimal("session ", 42), "session 42");
}

#[test]
fn with_detail_joins_prefix_and_detail() {
    assert_eq!(with_detail("Failed: ", "no such device"), "Failed: no such device");
    assert_eq!(with_detail("Failed: ", ""), "Failed: ");
}

#[test]
fn decode_chunk_takes_ascii() {
    assert_eq!(decode_chunk(b"hello\n"), Some(String::from("hello\n")));
}

#[test]
fn decode_chunk_takes_multibyte_text() {
    let bytes = "h\u{e9}llo \u{4e16}\u{754c} \u{1f600}".as_bytes();
    assert_eq!(decode_chunk(bytes), Some(String::from("h\u{e9}llo \u{4e16}\u{754c} \u{1f600}")));
}

#[test]
fn decode_chunk_of_nothing_is_empty_text() {
    assert_eq!(decode_chunk(b""), Some(String::new()));
}

#[test]
fn decode_chunk_refuses_a_stray_byte() {
    assert_eq!(decode_chunk(&[0xff]), None);
    assert_eq!(decode_chunk(&[b'a', 0x80, b'b']), None);
}

#[test]
fn decode_chunk_refuses_a_character_cut_short() {
    // The first byte of a two-byte character, with the second missing.
    assert_eq!(decode_chunk(&[b'a', 0xc3]), None);
    // The rest of it, arriving alone.
    assert_eq!(decode_chunk(&[0xa9, b'b']), None);
}

#[test]
fn decode_chunk_is_all_or_nothing() {
    // Valid text followed by one bad byte: none of it is decoded.
    assert_eq!(decode_chunk(&[b'o', b'k', 0xfe]), None);
}

#[test]
fn decode_chunk_refuses_overlong_and_surrogate_forms() {
    assert_eq!(decode_chunk(&[0xc0, 0x80]), None);
    assert_eq!(decode_chunk(&[0xed, 0xa0, 0x80]), None);
}
