//! The two-leg split payment shared by every paid settlement.
//!
//! A buyer pays `price` lamports; the counterparty (merchant or reseller)
//! receives `price - floor(price * 25 / 1000)` and the platform receives the
//! fee. Both legs land together or not at all: on any failure every balance is
//! left exactly as it was.

use vstd::prelude::*;

use crate::errors::CouponError;
use crate::fees::{calculate_fee_split, fee_computable, spec_counterparty_amount, spec_platform_fee};
use crate::state::Wallet;

verus! {

/// Whether a split payment of `price` from `buyer` can land: the fee is
/// computable, the buyer can cover the whole price, and neither recipient's
/// balance overflows.
pub open spec fn payment_allowed(buyer: Wallet, counterparty: Wallet, platform: Wallet, price: u64) -> bool {
    &&& fee_computable(price)
    &&& buyer.lamports >= price
    &&& counterparty.lamports + spec_counterparty_amount(price) <= u64::MAX
    &&& platform.lamports + spec_platform_fee(price) <= u64::MAX
}

/// The error a rejected split payment reports, in the order the legs are
/// attempted: an uncomputable fee and a recipient-balance overflow are
/// arithmetic errors; a buyer who cannot cover the price is an insufficient
/// payment.
pub open spec fn payment_error(buyer: Wallet, counterparty: Wallet, platform: Wallet, price: u64) -> CouponError {
    if !fee_computable(price) {
        CouponError::ArithmeticOverflow
    } else if buyer.lamports < price {
        CouponError::InsufficientPayment
    } else {
        CouponError::ArithmeticOverflow
    }
}

/// The three balances after a successful split payment of `price`.
pub open spec fn payment_apply(buyer: Wallet, counterparty: Wallet, platform: Wallet, price: u64) -> (Wallet, Wallet, Wallet) {
    (
        Wallet { lamports: (buyer.lamports - price) as u64, ..buyer },
        Wallet { lamports: (counterparty.lamports + spec_counterparty_amount(price)) as u64, ..counterparty },
        Wallet { lamports: (platform.lamports + spec_platform_fee(price)) as u64, ..platform },
    )
}

/// Move `price` lamports out of `buyer`, split between `counterparty` and
/// `platform` by the fixed fee formula. All-or-nothing: on error no balance
/// changes.
pub fn pay_with_fee_split(
    buyer: &mut Wallet,
    counterparty: &mut Wallet,
    platform: &mut Wallet,
    price: u64,
) -> (r: Result<(), CouponError>)
    ensures
        r is Ok <==> payment_allowed(*old(buyer), *old(counterparty), *old(platform), price),
        r is Ok ==> (*final(buyer), *final(counterparty), *final(platform))
            == payment_apply(*old(buyer), *old(counterparty), *old(platform), price),
        r is Err ==> {
            &&& *final(buyer) == *old(buyer)
            &&& *final(counterparty) == *old(counterparty)
            &&& *final(platform) == *old(platform)
            &&& r == Err::<(), CouponError>(payment_error(*old(buyer), *old(counterparty), *old(platform), price))
        },
        final(buyer).lamports + final(counterparty).lamports + final(platform).lamports
            == old(buyer).lamports + old(counterparty).lamports + old(platform).lamports,
        final(buyer).key == old(buyer).key
            && final(counterparty).key == old(counterparty).key
            && final(platform).key == old(platform).key,
{
    let (platform_fee, counterparty_amount) = match calculate_fee_split(price) {
        Ok(split) => split,
        Err(e) => {
            return Err(e);
        },
    };
    if buyer.lamports < price {
        return Err(CouponError::InsufficientPayment);
    }
    let new_counterparty = match counterparty.lamports.checked_add(counterparty_amount) {
        Some(b) => b,
        None => {
            return Err(CouponError::ArithmeticOverflow);
        },
    };
    let new_platform = match platform.lamports.checked_add(platform_fee) {
        Some(b) => b,
        None => {
            return Err(CouponError::ArithmeticOverflow);
        },
    };
    buyer.lamports = buyer.lamports - price;
    counterparty.lamports = new_counterparty;
    platform.lamports = new_platform;
    Ok(())
}

} // verus!
