use backed_cli::error::CliError;
use backed_cli::uint::Uint256;
use backed_cli::units::{
    format_token_amount, minutes_to_seconds_u256, parse_amount_raw, parse_amount_units,
    parse_token_amount, parse_units_completes,
};

const MODULUS: &str =
    "115792089237316195423570985008687907853269984665640564039457584007913129639936";
const MAX: &str =
    "115792089237316195423570985008687907853269984665640564039457584007913129639935";

fn units(value: &str, decimals: u8) -> Result<Uint256, CliError> {
    assert!(parse_units_completes(value, decimals));
    parse_amount_units(value, decimals)
}

#[test]
fn decimal_amounts_scale_to_base_units() {
    assert_eq!(units("1.5", 18), Ok(Uint256::from_u64(1_500_000_000_000_000_000)));
    assert_eq!(units("100", 6), Ok(Uint256::from_u64(100_000_000)));
    assert_eq!(units("1000.5", 18).unwrap().to_decimal_string(), "1000500000000000000000");
    assert_eq!(units("1_000", 0), Ok(Uint256::from_u64(1000)));
    assert_eq!(units("", 18), Ok(Uint256::from_u64(0)));
    assert_eq!(units(".5", 1), Ok(Uint256::from_u64(5)));
    assert_eq!(units("1.", 2), Ok(Uint256::from_u64(100)));
}

#[test]
fn longer_fractions_are_cut() {
    assert_eq!(units("1.23456", 2), Ok(Uint256::from_u64(123)));
    assert_eq!(units("0.999", 0), Ok(Uint256::from_u64(0)));
    assert_eq!(units("1.5\u{e9}", 1), Ok(Uint256::from_u64(15)));
}

#[test]
fn negative_amounts_come_back_as_twos_complement() {
    assert_eq!(units("-1", 0), Ok(Uint256 { words: [u64::MAX; 4] }));
    assert_eq!(units("-", 3), Ok(Uint256::from_u64(0)));
}

#[test]
fn invalid_decimal_amounts() {
    let err = units("abc", 18).unwrap_err();
    assert_eq!(err.message(), "invalid amount `abc` for 18 decimals");
    assert!(units("1.2.3", 18).is_err());
    assert!(units("+1", 18).is_err());
    assert!(units(MODULUS, 0).is_err());
    assert!(units("1", 78).is_err());
    let too_negative = format!("-1{}", "0".repeat(77));
    assert!(units(&too_negative, 0).is_err());
}

#[test]
fn amounts_that_would_overflow_are_flagged() {
    let huge = format!("1{}", "0".repeat(70));
    assert!(!parse_units_completes(&huge, 18));
    assert!(parse_units_completes(&huge, 7));
    let too_long = format!("1{}", "0".repeat(80));
    assert!(parse_units_completes(&too_long, 18));
    assert!(units(&too_long, 18).is_err());
    assert!(!parse_units_completes(MAX, 1));
    assert!(parse_units_completes(MAX, 0));
    assert!(!parse_units_completes("1.5\u{e9}", 2));
    let negative = format!("-5{}", "0".repeat(76));
    assert!(!parse_units_completes(&negative, 1));
    assert!(parse_units_completes(&negative, 0));
    assert!(parse_units_completes("1.5", 18));
    assert!(parse_units_completes("abc", 18));
}

#[test]
fn raw_amounts() {
    assert_eq!(parse_amount_raw("123"), Ok(Uint256::from_u64(123)));
    assert_eq!(parse_amount_raw(""), Ok(Uint256::from_u64(0)));
    assert_eq!(parse_amount_raw(MAX), Ok(Uint256 { words: [u64::MAX; 4] }));
    let err = parse_amount_raw("12a").unwrap_err();
    assert_eq!(err.message(), "invalid raw uint256 amount `12a`");
    assert!(parse_amount_raw(MODULUS).is_err());
    assert!(parse_amount_raw("-1").is_err());
    assert!(parse_amount_raw(" 1").is_err());
}

#[test]
fn token_amount_raw_or_in_units() {
    assert_eq!(parse_token_amount("100", 6, true), Ok(Uint256::from_u64(100)));
    assert_eq!(parse_token_amount("100", 6, false), Ok(Uint256::from_u64(100_000_000)));
    assert!(matches!(parse_token_amount("1.5", 6, true), Err(CliError::InvalidRawAmount { .. })));
}

#[test]
fn minutes_in_seconds() {
    assert_eq!(minutes_to_seconds_u256(60, "duration_minutes"), Ok(Uint256::from_u64(3600)));
    assert_eq!(minutes_to_seconds_u256(0, "x"), Ok(Uint256::from_u64(0)));
    let err = minutes_to_seconds_u256(u64::MAX, "duration_minutes").unwrap_err();
    assert_eq!(err.message(), "overflow on duration_minutes");
    assert!(minutes_to_seconds_u256(u64::MAX / 60, "x").is_ok());
    assert!(minutes_to_seconds_u256(u64::MAX / 60 + 1, "x").is_err());
}

#[test]
fn formatted_amounts_parse_back() {
    let samples = [
        Uint256::from_u64(0),
        Uint256::from_u64(1),
        Uint256::from_u64(1_500_000_000_000_000_000),
        Uint256 { words: [7, 9, 11, 13] },
        Uint256 { words: [u64::MAX; 4] },
    ];
    for v in samples.iter() {
        for decimals in [0u8, 1, 6, 18, 40, 77] {
            let text = format_token_amount(v, decimals);
            assert!(parse_units_completes(&text, decimals));
            assert_eq!(parse_amount_units(&text, decimals), Ok(*v), "{text} {decimals}");
        }
    }
}

#[test]
fn printed_numbers_parse_back_raw() {
    for v in [Uint256::from_u64(0), Uint256::from_u64(42), Uint256 { words: [u64::MAX; 4] }] {
        assert_eq!(parse_amount_raw(&v.to_decimal_string()), Ok(v));
    }
}

#[test]
fn word_arithmetic() {
    let a = Uint256::from_u64(5);
    let b = Uint256 { words: [0, 1, 0, 0] };
    assert!(a.lt(&b));
    assert!(!b.lt(&a));
    assert!(a.equals(&Uint256::from_u64(5)));
    assert!(a.fits_u64());
    assert!(!b.fits_u64());
    assert_eq!(a.as_u64(), 5);
    assert_eq!(b.to_decimal_string(), "18446744073709551616");
    let (ten_b, overflow) = b.mul10_add(3);
    assert!(!overflow);
    assert_eq!(ten_b.to_decimal_string(), "184467440737095516163");
    let (_, overflow) = Uint256 { words: [u64::MAX; 4] }.mul10_add(0);
    assert!(overflow);
}

#[test]
fn malformed_unsigned_amounts() {
    for bad in ["abc", "+1", "1.2.3", "1e3", " 1", "1,5"] {
        assert_eq!(
            units(bad, 18),
            Err(CliError::InvalidAmount { value: bad.to_string(), decimals: 18 })
        );
    }
    // Only the places that are kept are read: a cut tail is never looked at.
    assert_eq!(units("1.2.3", 1), Ok(Uint256::from_u64(12)));
    assert_eq!(units("1.2x", 1), Ok(Uint256::from_u64(12)));
    assert!(units("1x.2", 1).is_err());
    // A scale of 10^78 or more is an error even for zero.
    assert!(units("0", 78).is_err());
    assert_eq!(units("0", 77), Ok(Uint256::from_u64(0)));
    assert_eq!(units(MAX, 0).unwrap().to_decimal_string(), MAX);
    assert!(units(MODULUS, 0).is_err());
}
