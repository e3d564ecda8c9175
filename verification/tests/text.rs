use ping_codec::byte_order::{push_be, push_u16_be, read_u16_be};
use ping_codec::text::{
    digit_text, push_colon_hex, push_decimal, push_hex_byte, push_hex_dump, push_hex_u16,
};

#[test]
fn digits_are_lower_case() {
    let all: String = (0..16u8).map(digit_text).collect();
    assert_eq!(all, "0123456789abcdef");
}

#[test]
fn decimal_has_no_leading_zeros() {
    let mut out = String::from("n=");
    push_decimal(&mut out, 0);
    out.push(' ');
    push_decimal(&mut out, 9);
    out.push(' ');
    push_decimal(&mut out, 10);
    out.push(' ');
    push_decimal(&mut out, 65535);
    out.push(' ');
    push_decimal(&mut out, u64::MAX);
    assert_eq!(out, "n=0 9 10 65535 18446744073709551615");
}

#[test]
fn hexadecimal_has_a_fixed_width() {
    let mut out = String::new();
    push_hex_byte(&mut out, 0);
    push_hex_byte(&mut out, 0x0f);
    push_hex_byte(&mut out, 0xf0);
    out.push(' ');
    push_hex_u16(&mut out, 0x0800);
    out.push(' ');
    push_hex_u16(&mut out, 0xe5ca);
    assert_eq!(out, "000ff0 0800 e5ca");
}

#[test]
fn hex_dump_puts_a_blank_before_each_byte() {
    let mut out = String::from("x:");
    push_hex_dump(&mut out, &[]);
    assert_eq!(out, "x:");
    push_hex_dump(&mut out, &[0, 0x1a, 0xff]);
    assert_eq!(out, "x: 00 1a ff");
}

#[test]
fn hardware_addresses_use_colons() {
    let mut out = String::new();
    push_colon_hex(&mut out, &[0x3c, 0x06, 0x30, 0x36, 0x61, 0x6c]);
    assert_eq!(out, "3c:06:30:36:61:6c");
}

#[test]
fn big_endian_integers_are_written_high_byte_first() {
    let mut out = vec![0xaa];
    push_u16_be(&mut out, 0x0102);
    push_be(&mut out, 0x0a0b0c0d, 4);
    push_be(&mut out, 0x0a0b0c0d, 2);
    push_be(&mut out, 7, 0);
    assert_eq!(out, vec![0xaa, 1, 2, 0x0a, 0x0b, 0x0c, 0x0d, 0x0c, 0x0d]);
}

#[test]
fn big_endian_integers_are_read_high_byte_first() {
    let bytes = [0xff, 0x12, 0x34, 0x00];
    assert_eq!(read_u16_be(&bytes, 0), 0xff12);
    assert_eq!(read_u16_be(&bytes, 1), 0x1234);
    assert_eq!(read_u16_be(&bytes, 2), 0x3400);
}
