use payroll::math::{amount_after_fee, calculate_fee, safe_add, safe_div, safe_mul, safe_sub};
use payroll::PayrollError;

#[test]
fn fee_and_remainder_add_up() {
    let fee = calculate_fee(10_000_000, 300).unwrap();
    let rest = amount_after_fee(10_000_000, 300).unwrap();
    assert_eq!(fee, 300_000);
    assert_eq!(rest, 9_700_000);
    assert_eq!(fee + rest, 10_000_000);
}

#[test]
fn fee_rounds_down() {
    assert_eq!(calculate_fee(999, 300), Ok(29));
    assert_eq!(amount_after_fee(999, 300), Ok(970));
    assert_eq!(calculate_fee(1, 9_999), Ok(0));
}

#[test]
fn fee_split_holds_at_the_edges() {
    for bps in [0u16, 1, 300, 1000, 9_999, 10_000] {
        for amount in [0u64, 1, 7, 10_000, 123_456_789, u64::MAX / 10_000] {
            let fee = calculate_fee(amount, bps).unwrap();
            let rest = amount_after_fee(amount, bps).unwrap();
            assert_eq!(fee + rest, amount);
        }
    }
    assert_eq!(calculate_fee(500, 10_000), Ok(500));
    assert_eq!(amount_after_fee(500, 10_000), Ok(0));
}

#[test]
fn fee_overflow_fails_both_ways() {
    assert_eq!(calculate_fee(u64::MAX, 2), Err(PayrollError::MathOverflow));
    assert_eq!(amount_after_fee(u64::MAX, 2), Err(PayrollError::MathOverflow));
}

#[test]
fn fee_above_the_whole_underflows() {
    assert_eq!(amount_after_fee(100, 20_000), Err(PayrollError::MathUnderflow));
}

#[test]
fn add_sub_round_trip() {
    let c = safe_add(40, 2).unwrap();
    assert_eq!(c, 42);
    assert_eq!(safe_sub(c, 2), Ok(40));
    assert_eq!(safe_add(u64::MAX - 1, 1), Ok(u64::MAX));
    assert_eq!(safe_sub(u64::MAX, 1), Ok(u64::MAX - 1));
}

#[test]
fn mul_div_round_trip() {
    let c = safe_mul(12_345, 678).unwrap();
    assert_eq!(c, 8_369_910);
    assert_eq!(safe_div(c, 678), Ok(12_345));
    assert_eq!(safe_div(7, 2), Ok(3));
}

#[test]
fn overflow_and_underflow_fail() {
    assert_eq!(safe_add(u64::MAX, 1), Err(PayrollError::MathOverflow));
    assert_eq!(safe_mul(u64::MAX, 2), Err(PayrollError::MathOverflow));
    assert_eq!(safe_mul(1u64 << 32, 1u64 << 32), Err(PayrollError::MathOverflow));
    assert_eq!(safe_sub(1, 2), Err(PayrollError::MathUnderflow));
}

#[test]
fn division_by_zero_fails() {
    assert_eq!(safe_div(5, 0), Err(PayrollError::DivisionByZero));
}

#[test]
fn error_codes_follow_categories() {
    assert_eq!(PayrollError::Unauthorized.code(), 6000);
    assert_eq!(PayrollError::RaffleNotEnded.code(), 6101);
    assert_eq!(PayrollError::NotEnoughTickets.code(), 6200);
    assert_eq!(PayrollError::PrizeAlreadyClaimed.code(), 6300);
    assert_eq!(PayrollError::TimelockNotExpired.code(), 6404);
    assert_eq!(PayrollError::VrfResultNotAvailable.code(), 6504);
    assert_eq!(PayrollError::MathOverflow.code(), 6600);
    assert_eq!(PayrollError::InvalidVault.code(), 6704);
}
