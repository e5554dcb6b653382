//! Purchase protocol: release a paid coupon's asset against a split payment.
//!
//! One atomic unit: the buyer pays the stored price, split 97.5% to the
//! merchant's wallet and 2.5% to the platform wallet, the single unit moves
//! from the issuance escrow to the buyer, and one redemption is consumed.
//! If any leg cannot land — terms violated, fee not computable, buyer short,
//! a balance overflowing, escrow already empty — nothing moves at all.

use vstd::prelude::*;

use crate::errors::CouponError;
use crate::fees::{calculate_fee_split, spec_counterparty_amount, spec_platform_fee};
use crate::payments::{payment_allowed, payment_apply, payment_error};
use crate::state::{AccountId, CouponData, Merchant, TokenAccountState, Wallet};

verus! {

/// Snapshot of the accounts touched by a purchase.
pub struct PurchaseCoupon {
    /// The coupon record.
    pub coupon_data: CouponData,
    /// Address of the merchant record the escrow was derived from.
    pub merchant_key: AccountId,
    /// The merchant record itself.
    pub merchant: Merchant,
    /// The merchant's beneficiary wallet, receiving 97.5% of the payment.
    pub merchant_authority: Wallet,
    /// The platform's fee wallet, receiving 2.5% of the payment.
    pub platform_wallet: Wallet,
    /// The issuance escrow holding the not-yet-released unit.
    pub nft_escrow: TokenAccountState,
    /// The buyer's holding account for this asset.
    pub buyer_token_account: TokenAccountState,
    /// The buyer's wallet, paying the price.
    pub buyer: Wallet,
}

impl PurchaseCoupon {
    /// Account wiring and custody invariant: valid records, holding accounts
    /// of the coupon's asset wired to their owners, the beneficiary wallet
    /// controlled by the merchant's authority, at most one unit of the asset
    /// in view, and three distinct wallets.
    pub open spec fn wf(self) -> bool {
        &&& self.coupon_data.wf()
        &&& self.merchant.wf()
        &&& self.merchant_authority.key == self.merchant.authority
        &&& self.nft_escrow.mint == self.coupon_data.mint
        &&& self.nft_escrow.owner == self.merchant_key
        &&& self.buyer_token_account.mint == self.coupon_data.mint
        &&& self.buyer_token_account.owner == self.buyer.key
        &&& self.nft_escrow.amount + self.buyer_token_account.amount <= 1
        &&& self.buyer.key != self.merchant_authority.key
        &&& self.buyer.key != self.platform_wallet.key
        &&& self.merchant_authority.key != self.platform_wallet.key
    }
}

/// Whether a purchase goes through: linked record, active, priced, unexpired,
/// redemptions remaining, the split payment can land, and the escrow still
/// holds the unit.
pub open spec fn purchase_allowed(ctx: PurchaseCoupon, now: i64) -> bool {
    &&& ctx.coupon_data.merchant == ctx.merchant_key
    &&& ctx.coupon_data.is_active
    &&& ctx.coupon_data.price > 0
    &&& ctx.coupon_data.expiry_date > now
    &&& ctx.coupon_data.redemptions_remaining > 0
    &&& payment_allowed(ctx.buyer, ctx.merchant_authority, ctx.platform_wallet, ctx.coupon_data.price)
    &&& ctx.nft_escrow.amount == 1
}

/// The error a rejected purchase reports, in the order the conditions are
/// checked: record and term errors first, then the payment legs, and last the
/// custody leg.
pub open spec fn purchase_error(ctx: PurchaseCoupon, now: i64) -> CouponError {
    if ctx.coupon_data.merchant != ctx.merchant_key {
        CouponError::UnauthorizedMerchant
    } else if !ctx.coupon_data.is_active {
        CouponError::CouponInactive
    } else if ctx.coupon_data.price == 0 {
        CouponError::NotPaidCoupon
    } else if ctx.coupon_data.expiry_date <= now {
        CouponError::CouponExpired
    } else if ctx.coupon_data.redemptions_remaining == 0 {
        CouponError::NoRedemptionsRemaining
    } else if !payment_allowed(ctx.buyer, ctx.merchant_authority, ctx.platform_wallet, ctx.coupon_data.price) {
        payment_error(ctx.buyer, ctx.merchant_authority, ctx.platform_wallet, ctx.coupon_data.price)
    } else {
        CouponError::InvalidNFTAmount
    }
}

/// The account snapshot after a successful purchase: balances settled by the
/// fee split, the unit moved from the escrow to the buyer, one redemption
/// consumed.
pub open spec fn purchase_apply(ctx: PurchaseCoupon) -> PurchaseCoupon {
    let settled = payment_apply(ctx.buyer, ctx.merchant_authority, ctx.platform_wallet, ctx.coupon_data.price);
    PurchaseCoupon {
        coupon_data: CouponData {
            redemptions_remaining: (ctx.coupon_data.redemptions_remaining - 1) as u8,
            ..ctx.coupon_data
        },
        buyer: settled.0,
        merchant_authority: settled.1,
        platform_wallet: settled.2,
        nft_escrow: TokenAccountState { amount: 0, ..ctx.nft_escrow },
        buyer_token_account: TokenAccountState {
            amount: (ctx.buyer_token_account.amount + 1) as u64,
            ..ctx.buyer_token_account
        },
        ..ctx
    }
}

/// Purchase a paid coupon: pay the stored price with the fixed fee split and
/// take the single unit out of the issuance escrow. All-or-nothing: on error
/// no account changes.
pub fn handler(ctx: &mut PurchaseCoupon, now: i64) -> (r: Result<(), CouponError>)
    requires
        old(ctx).wf(),
    ensures
        final(ctx).wf(),
        r is Ok <==> purchase_allowed(*old(ctx), now),
        r is Ok ==> *final(ctx) == purchase_apply(*old(ctx)),
        r is Ok ==> final(ctx).merchant_authority.lamports
            == old(ctx).merchant_authority.lamports + spec_counterparty_amount(old(ctx).coupon_data.price)
            && final(ctx).platform_wallet.lamports
            == old(ctx).platform_wallet.lamports + spec_platform_fee(old(ctx).coupon_data.price),
        r is Err ==> *final(ctx) == *old(ctx),
        (r matches Err(e) ==> e == purchase_error(*old(ctx), now)),
{
    if ctx.coupon_data.merchant != ctx.merchant_key {
        return Err(CouponError::UnauthorizedMerchant);
    }
    if !ctx.coupon_data.is_active {
        return Err(CouponError::CouponInactive);
    }
    if ctx.coupon_data.price == 0 {
        return Err(CouponError::NotPaidCoupon);
    }
    if ctx.coupon_data.expiry_date <= now {
        return Err(CouponError::CouponExpired);
    }
    if ctx.coupon_data.redemptions_remaining == 0 {
        return Err(CouponError::NoRedemptionsRemaining);
    }

    let total_price = ctx.coupon_data.price;
    let (platform_fee, merchant_amount) = match calculate_fee_split(total_price) {
        Ok(split) => split,
        Err(e) => {
            return Err(e);
        },
    };
    if ctx.buyer.lamports < total_price {
        return Err(CouponError::InsufficientPayment);
    }
    let new_merchant_balance = match ctx.merchant_authority.lamports.checked_add(merchant_amount) {
        Some(b) => b,
        None => {
            return Err(CouponError::ArithmeticOverflow);
        },
    };
    let new_platform_balance = match ctx.platform_wallet.lamports.checked_add(platform_fee) {
        Some(b) => b,
        None => {
            return Err(CouponError::ArithmeticOverflow);
        },
    };
    if ctx.nft_escrow.amount != 1 {
        return Err(CouponError::InvalidNFTAmount);
    }

    // Payment legs: buyer covers the whole price, split between the merchant's
    // wallet and the platform wallet.
    ctx.buyer.lamports = ctx.buyer.lamports - total_price;
    ctx.merchant_authority.lamports = new_merchant_balance;
    ctx.platform_wallet.lamports = new_platform_balance;

    // Custody leg: program-authorized transfer of the single unit out of the
    // issuance escrow.
    ctx.nft_escrow.amount = 0;
    ctx.buyer_token_account.amount = ctx.buyer_token_account.amount + 1;

    ctx.coupon_data.redemptions_remaining = ctx.coupon_data.redemptions_remaining - 1;

    Ok(())
}

} // verus!
