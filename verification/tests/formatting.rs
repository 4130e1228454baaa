use backed_cli::formatters::{
    format_bps, format_duration_human, format_status, format_ts, header, key, paint, warn,
};
use backed_cli::uint::Uint256;
use backed_cli::units::format_token_amount;

fn big(words: [u64; 4]) -> Uint256 {
    Uint256 { words }
}

#[test]
fn bps_with_percentage() {
    assert_eq!(format_bps(150), "150 (1.50%)");
    assert_eq!(format_bps(5), "5 (0.05%)");
    assert_eq!(format_bps(0), "0 (0.00%)");
    assert_eq!(format_bps(100), "100 (1.00%)");
    assert_eq!(format_bps(1234), "1234 (12.34%)");
    assert_eq!(format_bps(65535), "65535 (655.35%)");
}

#[test]
fn bps_matches_two_place_float_rendering() {
    for bps in 0..=u16::MAX {
        let expected = format!("{bps} ({:.2}%)", f64::from(bps) / 100.0);
        assert_eq!(format_bps(bps), expected);
    }
}

#[test]
fn status_names() {
    assert_eq!(format_status(0), "raising");
    assert_eq!(format_status(1), "deploying");
    assert_eq!(format_status(2), "operating");
    assert_eq!(format_status(3), "paused");
    assert_eq!(format_status(4), "closed");
    assert_eq!(format_status(5), "unknown");
    assert_eq!(format_status(255), "unknown");
}

#[test]
fn durations_in_parts() {
    assert_eq!(format_duration_human(&Uint256::from_u64(0)), "0 sec (0s)");
    assert_eq!(format_duration_human(&Uint256::from_u64(59)), "59 sec (59s)");
    assert_eq!(format_duration_human(&Uint256::from_u64(60)), "60 sec (1m)");
    assert_eq!(format_duration_human(&Uint256::from_u64(3700)), "3700 sec (1h 1m 40s)");
    assert_eq!(format_duration_human(&Uint256::from_u64(86400)), "86400 sec (1d)");
    assert_eq!(format_duration_human(&Uint256::from_u64(90061)), "90061 sec (1d 1h 1m 1s)");
    assert_eq!(format_duration_human(&Uint256::from_u64(172800 + 120)), "172920 sec (2d 2m)");
    assert_eq!(
        format_duration_human(&Uint256::from_u64(u64::MAX)),
        "18446744073709551615 sec (213503982334601d 7h 15s)"
    );
}

#[test]
fn durations_past_64_bits() {
    assert_eq!(format_duration_human(&big([0, 1, 0, 0])), "18446744073709551616 sec");
}

#[test]
fn timestamps_as_numbers() {
    assert_eq!(format_ts(&Uint256::from_u64(1_725_029_869)), "1725029869");
    assert_eq!(format_ts(&Uint256::from_u64(0)), "0");
    assert_eq!(format_ts(&big([0, 1, 0, 0])), "18446744073709551616");
    assert_eq!(
        format_ts(&big([u64::MAX; 4])),
        "115792089237316195423570985008687907853269984665640564039457584007913129639935"
    );
}

#[test]
fn token_amounts_in_units() {
    let one_and_a_half = Uint256::from_u64(1_500_000_000_000_000_000);
    assert_eq!(format_token_amount(&one_and_a_half, 18), "1.500000000000000000");
    assert_eq!(format_token_amount(&Uint256::from_u64(5), 0), "5.0");
    assert_eq!(format_token_amount(&Uint256::from_u64(123), 2), "1.23");
    assert_eq!(format_token_amount(&Uint256::from_u64(5), 3), "0.005");
    assert_eq!(format_token_amount(&Uint256::from_u64(0), 6), "0.000000");
    assert_eq!(format_token_amount(&Uint256::from_u64(1_000_000), 6), "1.000000");
}

#[test]
fn token_amounts_with_too_many_decimals_print_raw() {
    assert_eq!(format_token_amount(&Uint256::from_u64(123), 78), "123");
    assert_eq!(format_token_amount(&Uint256::from_u64(123), 255), "123");
    assert_eq!(
        format_token_amount(&Uint256::from_u64(123), 77),
        "0.00000000000000000000000000000000000000000000000000000000000000000000000000123"
    );
}

#[test]
fn colours_on_and_off() {
    assert_eq!(paint("x", "1;36", false), "x");
    assert_eq!(paint("x", "1;36", true), "\x1b[1;36mx\x1b[0m");
    assert_eq!(header("Factory:", true), "\x1b[1;36mFactory:\x1b[0m");
    assert_eq!(key("Total projects:", true), "\x1b[1;34mTotal projects:\x1b[0m");
    assert_eq!(warn("Warning:", true), "\x1b[1;33mWarning:\x1b[0m");
    assert_eq!(header("Factory:", false), "Factory:");
}
