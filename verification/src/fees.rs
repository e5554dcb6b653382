//! The fixed 2.5% / 97.5% fee split applied to every payment.
//!
//! Whatever a buyer pays is divided exactly: the platform receives
//! `floor(price * 25 / 1000)` and the counterparty (merchant or reseller)
//! receives the rest. The split is computed with checked arithmetic; if the
//! intermediate product would overflow, the whole operation aborts and no
//! funds move.

use vstd::prelude::*;

use crate::errors::CouponError;

verus! {

/// Platform share of every payment, in thousandths (25 = 2.5%).
pub const PLATFORM_FEE_PER_MILLE: u64 = 25;

/// Divisor of the fee formula.
pub const FEE_DIVISOR: u64 = 1000;

/// The exact platform fee owed on a payment of `price` lamports.
pub open spec fn spec_platform_fee(price: u64) -> int {
    price * PLATFORM_FEE_PER_MILLE / (FEE_DIVISOR as int)
}

/// The counterparty's (merchant's or reseller's) share of a payment of
/// `price` lamports: everything the platform does not take.
pub open spec fn spec_counterparty_amount(price: u64) -> int {
    price - spec_platform_fee(price)
}

/// Whether the fee on `price` can be computed in 64-bit arithmetic.
pub open spec fn fee_computable(price: u64) -> bool {
    price * PLATFORM_FEE_PER_MILLE <= u64::MAX
}

/// Law: the fee split is exact for every price. The two shares add back up to
/// the price with no remainder lost, and the fee never exceeds the price.
pub proof fn lemma_fee_split_exact(price: u64)
    ensures
        spec_platform_fee(price) + spec_counterparty_amount(price) == price,
        0 <= spec_platform_fee(price) <= price,
{
    assert(0 <= price * PLATFORM_FEE_PER_MILLE / (FEE_DIVISOR as int) <= price) by (nonlinear_arith);
}

/// Split `price` into `(platform_fee, counterparty_amount)`.
///
/// Succeeds for exactly those prices whose fee product fits in 64 bits;
/// otherwise reports an arithmetic error and nothing moves.
pub fn calculate_fee_split(price: u64) -> (r: Result<(u64, u64), CouponError>)
    ensures
        r is Ok <==> fee_computable(price),
        (r matches Ok(split) ==> {
            &&& split.0 == spec_platform_fee(price)
            &&& split.1 == spec_counterparty_amount(price)
            &&& split.0 + split.1 == price
        }),
        r is Err ==> r == Err::<(u64, u64), CouponError>(CouponError::ArithmeticOverflow),
{
    let scaled = match price.checked_mul(PLATFORM_FEE_PER_MILLE) {
        Some(s) => s,
        None => {
            return Err(CouponError::ArithmeticOverflow);
        },
    };
    let platform_fee = scaled / FEE_DIVISOR;
    proof {
        lemma_fee_split_exact(price);
    }
    let counterparty_amount = price - platform_fee;
    Ok((platform_fee, counterparty_amount))
}

} // verus!
