use rexta::u24::{ParseU24Error, U24};

#[test]
fn new_keeps_the_low_24_bits() {
    assert_eq!(U24::new(0).value(), 0);
    assert_eq!(U24::new(0x00FF_FFFF).value(), 0x00FF_FFFF);
    assert_eq!(U24::new(0x0100_0000).value(), 0);
    assert_eq!(U24::new(0xFFFF_FFFF).value(), 0x00FF_FFFF);
    assert_eq!(U24::new(0x1234_5678).value(), 0x0034_5678);
}

#[test]
fn addition_wraps_at_24_bits() {
    assert_eq!(U24::new(0x00FF_FFFF) + 1, U24::new(0));
    assert_eq!(U24::new(0x00FF_FFFF) + U24::new(1), U24::new(0));
    assert_eq!(U24::new(0x00FF_FFFF) + U24::new(0x00FF_FFFF), U24::new(0x00FF_FFFE));
    assert_eq!((U24::new(5) + 0xFFFF_FFFF).value(), 4);
    assert_eq!((U24::new(10) + 20).value(), 30);
}

#[test]
fn subtraction_wraps_at_24_bits() {
    assert_eq!(U24::new(0) - 1, U24::new(0x00FF_FFFF));
    assert_eq!(U24::new(0) - U24::new(1), U24::new(0x00FF_FFFF));
    assert_eq!((U24::new(3) - U24::new(5)).value(), 0x00FF_FFFE);
    assert_eq!((U24::new(0xFFFE) - 3).value(), 0xFFFB);
    assert_eq!((U24::new(5) - 0x0100_0001).value(), 4);
}

#[test]
fn arithmetic_in_place_wraps_too() {
    let mut x = U24::new(0x00FF_FFFF);
    x += 1;
    assert_eq!(x.value(), 0);
    x -= 1;
    assert_eq!(x.value(), 0x00FF_FFFF);
    x += U24::new(2);
    assert_eq!(x.value(), 1);
    x -= U24::new(3);
    assert_eq!(x.value(), 0x00FF_FFFE);
}

#[test]
fn bytes_most_significant_first() {
    let v = U24::from_bytes(0x12, 0x34, 0x56);
    assert_eq!(v.value(), 0x0012_3456);
    assert_eq!(v.to_bytes(), (0x12, 0x34, 0x56));
    assert_eq!(U24::new(0x00FF_FFFF).to_bytes(), (0xFF, 0xFF, 0xFF));
    assert_eq!(U24::new(0).to_bytes(), (0, 0, 0));
}

#[test]
fn bytes_least_significant_first() {
    let v = U24::from_le_bytes([0x56, 0x34, 0x12]);
    assert_eq!(v.value(), 0x0012_3456);
    assert_eq!(v.to_le_bytes(), [0x56, 0x34, 0x12]);
    assert_eq!(U24::from_le_bytes(U24::new(0x00AB_CDEF).to_le_bytes()).value(), 0x00AB_CDEF);
}

#[test]
fn narrowing_takes_the_low_bits() {
    let v = U24::new(0x0012_3456);
    assert_eq!(v.as_u8(), 0x56);
    assert_eq!(v.as_u16(), 0x3456);
    assert_eq!(v.as_u32(), 0x0012_3456);
    assert_eq!(u8::from(v), 0x56);
    assert_eq!(u16::from(v), 0x3456);
    assert_eq!(u32::from(v), 0x0012_3456);
}

#[test]
fn bitwise_operations() {
    let a = U24::new(0x00F0_F0F0);
    let b = U24::new(0x00FF_00FF);
    assert_eq!((a & b).value(), 0x00F0_00F0);
    assert_eq!((a | b).value(), 0x00FF_F0FF);
    assert_eq!((a ^ b).value(), 0x000F_F00F);
    assert_eq!((a & 0xFFu32).value(), 0xF0);
    assert_eq!((a | 0xFF00_000Fu32).value(), 0x00F0_F0FF);
    assert_eq!((a ^ 0xFF00_0000u32).value(), 0x00F0_F0F0);
    assert_eq!((!a).value(), 0x000F_0F0F);
    assert_eq!((!U24::new(0)).value(), 0x00FF_FFFF);
}

#[test]
fn shifts_lose_what_leaves_24_bits() {
    assert_eq!((U24::new(0x0080_0001) << 1).value(), 2);
    assert_eq!((U24::new(1) << 23).value(), 0x0080_0000);
    assert_eq!((U24::new(1) << 24).value(), 0);
    assert_eq!((U24::new(0x0080_0000) >> 23).value(), 1);
    assert_eq!((U24::new(0x0012_3456) >> 8).value(), 0x1234);
}

#[test]
fn values_are_ordered_as_their_numbers() {
    assert!(U24::new(1) < U24::new(2));
    assert!(U24::new(0x00FF_FFFF) > U24::new(0));
    assert!(U24::new(7) <= U24::new(7));
    assert_eq!(U24::new(7).max(U24::new(9)), U24::new(9));
    assert!(U24::new(5) == 5u32);
    assert!(U24::new(5) != 6u32);
}

#[test]
fn parses_decimal_and_hexadecimal_literals() {
    assert_eq!(U24::from_str("0"), Ok(U24::new(0)));
    assert_eq!(U24::from_str("8192"), Ok(U24::new(8192)));
    assert_eq!(U24::from_str("+17"), Ok(U24::new(17)));
    assert_eq!(U24::from_str("0x2000"), Ok(U24::new(0x2000)));
    assert_eq!(U24::from_str("0xabCDef"), Ok(U24::new(0x00AB_CDEF)));
    assert_eq!("0x10".parse::<U24>(), Ok(U24::new(16)));
    assert_eq!("16777215".parse::<U24>(), Ok(U24::new(0x00FF_FFFF)));
}

#[test]
fn parsing_keeps_the_low_24_bits_of_a_literal_that_fits_32() {
    assert_eq!(U24::from_str("16777216"), Ok(U24::new(0)));
    assert_eq!(U24::from_str("0xFF000001"), Ok(U24::new(1)));
    assert_eq!(U24::from_str("4294967295"), Ok(U24::new(0x00FF_FFFF)));
}

#[test]
fn rejects_what_is_no_literal() {
    assert_eq!(U24::from_str(""), Err(ParseU24Error));
    assert_eq!(U24::from_str("+"), Err(ParseU24Error));
    assert_eq!(U24::from_str("0x"), Err(ParseU24Error));
    assert_eq!(U24::from_str("12a"), Err(ParseU24Error));
    assert_eq!(U24::from_str("0xG1"), Err(ParseU24Error));
    assert_eq!(U24::from_str("-1"), Err(ParseU24Error));
    assert_eq!(U24::from_str("0X10"), Err(ParseU24Error));
    assert_eq!(U24::from_str(" 1"), Err(ParseU24Error));
    assert_eq!(U24::from_str("4294967296"), Err(ParseU24Error));
    assert_eq!(U24::from_str("0x100000000"), Err(ParseU24Error));
}

#[test]
fn prints_six_hexadecimal_digits() {
    assert_eq!(U24::new(0).to_string(), "000000");
    assert_eq!(U24::new(0x00AB_CDEF).to_string(), "abcdef");
    assert_eq!(U24::new(0x00AB_CDEF).to_upper_hex(), "ABCDEF");
    assert_eq!(U24::new(0x2000).to_string(), "002000");
    assert_eq!(U24::new(0x0012_3456).to_upper_hex(), "123456");
    assert_eq!(U24::new(0x0090_0A0F).to_string(), "900a0f");
}
