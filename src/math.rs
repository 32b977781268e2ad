use vstd::prelude::*;

use crate::constants::BPS_DENOMINATOR;
use crate::errors::PayrollError;

verus! {

/// What `safe_add` returns.
pub open spec fn add_result(a: u64, b: u64) -> Result<u64, PayrollError> {
    if a + b <= u64::MAX {
        Ok((a + b) as u64)
    } else {
        Err(PayrollError::MathOverflow)
    }
}

/// What `safe_sub` returns.
pub open spec fn sub_result(a: u64, b: u64) -> Result<u64, PayrollError> {
    if b <= a {
        Ok((a - b) as u64)
    } else {
        Err(PayrollError::MathUnderflow)
    }
}

/// What `safe_mul` returns.
pub open spec fn mul_result(a: u64, b: u64) -> Result<u64, PayrollError> {
    if a * b <= u64::MAX {
        Ok((a * b) as u64)
    } else {
        Err(PayrollError::MathOverflow)
    }
}

/// What `safe_div` returns.
pub open spec fn div_result(a: u64, b: u64) -> Result<u64, PayrollError> {
    if b != 0 {
        Ok((a / b) as u64)
    } else {
        Err(PayrollError::DivisionByZero)
    }
}

/// The fee on `amount` at `fee_bps` basis points, rounded down.
pub open spec fn fee_of(amount: u64, fee_bps: u16) -> int {
    (amount * fee_bps) / (BPS_DENOMINATOR as int)
}

/// What `calculate_fee` returns: the product must fit in 64 bits.
pub open spec fn fee_result(amount: u64, fee_bps: u16) -> Result<u64, PayrollError> {
    if amount * fee_bps <= u64::MAX {
        Ok(fee_of(amount, fee_bps) as u64)
    } else {
        Err(PayrollError::MathOverflow)
    }
}

/// What `amount_after_fee` returns.
pub open spec fn after_fee_result(amount: u64, fee_bps: u16) -> Result<u64, PayrollError> {
    if amount * fee_bps > u64::MAX {
        Err(PayrollError::MathOverflow)
    } else if fee_of(amount, fee_bps) > amount {
        Err(PayrollError::MathUnderflow)
    } else {
        Ok((amount - fee_of(amount, fee_bps)) as u64)
    }
}

/// Checked multiplication.
pub fn safe_mul(a: u64, b: u64) -> (r: Result<u64, PayrollError>)
    ensures
        r == mul_result(a, b),
{
    match a.checked_mul(b) {
        Some(v) => Ok(v),
        None => Err(PayrollError::MathOverflow),
    }
}

/// Checked addition.
pub fn safe_add(a: u64, b: u64) -> (r: Result<u64, PayrollError>)
    ensures
        r == add_result(a, b),
{
    match a.checked_add(b) {
        Some(v) => Ok(v),
        None => Err(PayrollError::MathOverflow),
    }
}

/// Checked subtraction.
pub fn safe_sub(a: u64, b: u64) -> (r: Result<u64, PayrollError>)
    ensures
        r == sub_result(a, b),
{
    match a.checked_sub(b) {
        Some(v) => Ok(v),
        None => Err(PayrollError::MathUnderflow),
    }
}

/// Division that refuses a zero divisor.
pub fn safe_div(a: u64, b: u64) -> (r: Result<u64, PayrollError>)
    ensures
        r == div_result(a, b),
{
    if b == 0 {
        return Err(PayrollError::DivisionByZero);
    }
    Ok(a / b)
}

/// The fee on `amount` at `fee_bps` basis points, rounded down.
pub fn calculate_fee(amount: u64, fee_bps: u16) -> (r: Result<u64, PayrollError>)
    ensures
        r == fee_result(amount, fee_bps),
{
    let fee = safe_mul(amount, fee_bps as u64)?;
    safe_div(fee, BPS_DENOMINATOR as u64)
}

/// What is left of `amount` once the fee is taken.
pub fn amount_after_fee(amount: u64, fee_bps: u16) -> (r: Result<u64, PayrollError>)
    ensures
        r == after_fee_result(amount, fee_bps),
{
    let fee = calculate_fee(amount, fee_bps)?;
    safe_sub(amount, fee)
}

/// The fee and the amount after the fee add up to the amount: for every
/// rate up to the whole, both computations succeed or fail together, and
/// when they succeed their sum is the amount itself.
pub proof fn lemma_fee_split(amount: u64, fee_bps: u16)
    requires
        fee_bps <= BPS_DENOMINATOR,
    ensures
        fee_result(amount, fee_bps) is Ok <==> after_fee_result(amount, fee_bps) is Ok,
        fee_result(amount, fee_bps) is Ok ==> fee_result(amount, fee_bps)->Ok_0
            + after_fee_result(amount, fee_bps)->Ok_0 == amount,
{
    assert((amount * fee_bps) / 10000 <= amount) by (nonlinear_arith)
        requires
            fee_bps <= 10000,
            amount >= 0,
    ;
}

/// Checked addition and subtraction undo each other, as do checked
/// multiplication and division, wherever the forward step did not overflow;
/// an overflowing or underflowing input fails instead of wrapping.
pub proof fn lemma_safe_math_round_trip(a: u64, b: u64)
    ensures
        add_result(a, b) is Ok ==> sub_result(add_result(a, b)->Ok_0, b) == Ok::<u64, PayrollError>(a),
        sub_result(a, b) is Ok ==> add_result(sub_result(a, b)->Ok_0, b) == Ok::<u64, PayrollError>(a),
        (mul_result(a, b) is Ok && b != 0) ==> div_result(mul_result(a, b)->Ok_0, b) == Ok::<u64, PayrollError>(a),
        a + b > u64::MAX ==> add_result(a, b) == Err::<u64, PayrollError>(PayrollError::MathOverflow),
        a < b ==> sub_result(a, b) == Err::<u64, PayrollError>(PayrollError::MathUnderflow),
        a * b > u64::MAX ==> mul_result(a, b) == Err::<u64, PayrollError>(PayrollError::MathOverflow),
{
    if b != 0 && a * b <= u64::MAX {
        assert((a * b) / (b as int) == a) by (nonlinear_arith)
            requires
                b > 0,
        ;
    }
}

} // verus!
