use crate::types::{Amount, NftError};
use vstd::prelude::*;

verus! {

/// Basis points that make up the whole of an amount.
pub const BASIS_POINTS_DENOMINATOR: u64 = 10000;

/// `basis_points` ten-thousandths of `amount`, rounded down.
pub open spec fn share_of(amount: int, basis_points: int) -> int {
    amount * basis_points / 10000
}

pub proof fn lemma_share_bounds(amount: int, basis_points: int)
    requires
        0 <= amount,
        0 <= basis_points <= 10000,
    ensures
        0 <= share_of(amount, basis_points) <= amount,
{
    assert(0 <= amount * basis_points <= amount * 10000) by (nonlinear_arith)
        requires
            0 <= amount,
            0 <= basis_points <= 10000,
    ;
}

pub proof fn lemma_share_nonneg(amount: int, basis_points: int)
    requires
        0 <= amount,
        0 <= basis_points,
    ensures
        0 <= share_of(amount, basis_points),
{
    assert(0 <= amount * basis_points) by (nonlinear_arith)
        requires
            0 <= amount,
            0 <= basis_points,
    ;
}

/// Computes `floor(amount * basis_points / 10000)` in double width; fails
/// only when the quotient does not fit in an `Amount`.
pub fn split(amount: Amount, basis_points: u16) -> (r: Result<Amount, NftError>)
    ensures
        r is Ok <==> share_of(amount as int, basis_points as int) <= u64::MAX,
        r matches Ok(v) ==> v == share_of(amount as int, basis_points as int),
        r matches Err(e) ==> e == NftError::ArithmeticOverflow,
{
    let a: u128 = amount as u128;
    let b: u128 = basis_points as u128;
    assert(a * b <= u64::MAX as int * u16::MAX as int) by (nonlinear_arith)
        requires
            a <= u64::MAX,
            b <= u16::MAX,
    ;
    let wide: u128 = a * b;
    let q: u128 = wide / (BASIS_POINTS_DENOMINATOR as u128);
    if q > u64::MAX as u128 {
        Err(NftError::ArithmeticOverflow)
    } else {
        Ok(q as u64)
    }
}

} // verus!
