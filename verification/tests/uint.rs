use transaction_simulator::simulation::PermissiveUint;
use transaction_simulator::uint::{digit_of, parse_digits, ParseUintError, Uint};

fn parsed(text: &str) -> Result<[u64; 4], ParseUintError> {
    PermissiveUint::parse(text).map(|v| v.0.to_limbs())
}

#[test]
fn value_parses_identically_in_decimal_and_hex() {
    assert_eq!(PermissiveUint::parse("1000"), PermissiveUint::parse("0x3e8"));
    assert_eq!(parsed("1000"), Ok([1000, 0, 0, 0]));
    assert_eq!(parsed("0x3e8"), Ok([1000, 0, 0, 0]));
    assert_eq!(parsed("0x3E8"), Ok([1000, 0, 0, 0]));
    assert_eq!(
        PermissiveUint::parse("10000000000000000000"),
        PermissiveUint::parse("0x8ac7230489e80000")
    );
    assert_eq!(
        PermissiveUint::parse("340282366920938463463374607431768211456"),
        PermissiveUint::parse("0x100000000000000000000000000000000")
    );
}

#[test]
fn parse_small_values() {
    assert_eq!(parsed("0"), Ok([0, 0, 0, 0]));
    assert_eq!(parsed("0x0"), Ok([0, 0, 0, 0]));
    assert_eq!(parsed("100000"), Ok([100000, 0, 0, 0]));
    assert_eq!(parsed("000123"), Ok([123, 0, 0, 0]));
    assert_eq!(parsed("0xff"), Ok([255, 0, 0, 0]));
    assert_eq!(parsed("0x00ff"), Ok([255, 0, 0, 0]));
    assert_eq!(parsed("18446744073709551615"), Ok([u64::MAX, 0, 0, 0]));
    assert_eq!(parsed("18446744073709551616"), Ok([0, 1, 0, 0]));
    assert_eq!(parsed("0x10000000000000000"), Ok([0, 1, 0, 0]));
}

#[test]
fn parse_fills_the_limbs_in_order() {
    assert_eq!(
        parsed("0x0000000000000004000000000000000300000000000000020000000000000001"),
        Ok([1, 2, 3, 4])
    );
    assert_eq!(
        parsed("0xfedcba9876543210FEDCBA98765432100123456789abcdef0123456789ABCDEF"),
        Ok([
            0x0123456789abcdef,
            0x0123456789abcdef,
            0xfedcba9876543210,
            0xfedcba9876543210
        ])
    );
}

#[test]
fn parse_largest_value() {
    let max = [u64::MAX; 4];
    assert_eq!(
        parsed("115792089237316195423570985008687907853269984665640564039457584007913129639935"),
        Ok(max)
    );
    assert_eq!(
        parsed("0xffffffffffffffffffffffffffffffffffffffffffffffffffffffffffffffff"),
        Ok(max)
    );
    assert_eq!(
        parsed("0x0ffffffffffffffffffffffffffffffffffffffffffffffffffffffffffffffff"),
        Ok(max)
    );
}

#[test]
fn parse_rejects_overflow() {
    assert_eq!(
        parsed("115792089237316195423570985008687907853269984665640564039457584007913129639936"),
        Err(ParseUintError::Overflow)
    );
    assert_eq!(
        parsed("0x10000000000000000000000000000000000000000000000000000000000000000"),
        Err(ParseUintError::Overflow)
    );
    assert_eq!(
        parsed("9999999999999999999999999999999999999999999999999999999999999999999999999999999999"),
        Err(ParseUintError::Overflow)
    );
}

#[test]
fn parse_rejects_empty() {
    assert_eq!(parsed(""), Err(ParseUintError::Empty));
    assert_eq!(parsed("0x"), Err(ParseUintError::Empty));
}

#[test]
fn parse_rejects_what_is_no_digit() {
    assert_eq!(parsed("12a"), Err(ParseUintError::InvalidDigit));
    assert_eq!(parsed("ff"), Err(ParseUintError::InvalidDigit));
    assert_eq!(parsed("0X10"), Err(ParseUintError::InvalidDigit));
    assert_eq!(parsed("0xg"), Err(ParseUintError::InvalidDigit));
    assert_eq!(parsed("-1"), Err(ParseUintError::InvalidDigit));
    assert_eq!(parsed("+1"), Err(ParseUintError::InvalidDigit));
    assert_eq!(parsed(" 1"), Err(ParseUintError::InvalidDigit));
    assert_eq!(parsed("1 "), Err(ParseUintError::InvalidDigit));
    assert_eq!(parsed("1_000"), Err(ParseUintError::InvalidDigit));
    assert_eq!(parsed("0x0x1"), Err(ParseUintError::InvalidDigit));
    assert_eq!(parsed("١٢٣"), Err(ParseUintError::InvalidDigit));
    // a character that is no digit is named before the size of the number
    assert_eq!(
        parsed("99999999999999999999999999999999999999999999999999999999999999999999999999999999x"),
        Err(ParseUintError::InvalidDigit)
    );
}

#[test]
fn parse_digits_from_a_position() {
    assert_eq!(parse_digits(b"ab12", 2, false).map(|v| v.to_limbs()), Ok([12, 0, 0, 0]));
    assert_eq!(parse_digits(b"ab12", 0, true).map(|v| v.to_limbs()), Ok([0xab12, 0, 0, 0]));
    assert_eq!(parse_digits(b"ab12", 4, true), Err(ParseUintError::Empty));
    assert_eq!(parse_digits(b"ab12", 0, false), Err(ParseUintError::InvalidDigit));
}

#[test]
fn digit_values() {
    assert_eq!(digit_of(b'0', false), Some(0));
    assert_eq!(digit_of(b'9', false), Some(9));
    assert_eq!(digit_of(b'a', false), None);
    assert_eq!(digit_of(b'a', true), Some(10));
    assert_eq!(digit_of(b'f', true), Some(15));
    assert_eq!(digit_of(b'F', true), Some(15));
    assert_eq!(digit_of(b'g', true), None);
    assert_eq!(digit_of(b'/', true), None);
    assert_eq!(digit_of(b':', true), None);
    assert_eq!(digit_of(b'@', true), None);
    assert_eq!(digit_of(b'`', true), None);
}

#[test]
fn mul_add_carries_across_limbs() {
    let (r, carry) = Uint::from_limbs([u64::MAX, 0, 0, 0]).mul_add(2, 1);
    assert_eq!((r.to_limbs(), carry), ([u64::MAX, 1, 0, 0], 0));
    let (r, carry) = Uint::from_limbs([u64::MAX; 4]).mul_add(10, 9);
    assert_eq!((r.to_limbs(), carry), ([u64::MAX, u64::MAX, u64::MAX, u64::MAX], 9));
    let (r, carry) = Uint::from_limbs([u64::MAX; 4]).mul_add(u64::MAX, u64::MAX);
    assert_eq!((r.to_limbs(), carry), ([0, 0, 0, 0], u64::MAX));
    let (r, carry) = Uint::from_limbs([7, 0, 0, 1 << 63]).mul_add(2, 0);
    assert_eq!((r.to_limbs(), carry), ([14, 0, 0, 0], 1));
    let (r, carry) = Uint::zero().mul_add(16, 5);
    assert_eq!((r.to_limbs(), carry), ([5, 0, 0, 0], 0));
}

#[test]
fn uint_from_and_to_u64() {
    assert_eq!(Uint::from_u64(137).to_limbs(), [137, 0, 0, 0]);
    assert_eq!(Uint::zero(), Uint::from_u64(0));
    assert_eq!(Uint::from_u64(5).as_u64(), Some(5));
    assert_eq!(Uint::from_limbs([5, 1, 0, 0]).as_u64(), None);
    assert_eq!(Uint::from_limbs([5, 0, 0, 1]).as_u64(), None);
    assert!(Uint::from_u64(1).eq_u64(1));
    assert!(!Uint::from_u64(1).eq_u64(2));
    assert!(!Uint::from_limbs([1, 0, 1, 0]).eq_u64(1));
    assert_eq!(Uint::from_limbs([1, 2, 3, 4]).to_limbs(), [1, 2, 3, 4]);
}
