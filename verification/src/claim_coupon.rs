//! Claim protocol: release a free coupon's asset from the issuance escrow.
//!
//! A claim succeeds exactly when the record is linked to the presented
//! merchant, the coupon is active and free, it has not expired, redemptions
//! remain, and the escrow still holds the unit. The unit then moves to the
//! claimant and one redemption is consumed; otherwise nothing changes.

use vstd::prelude::*;

use crate::errors::CouponError;
use crate::state::{AccountId, CouponData, Merchant, TokenAccountState};

verus! {

/// Snapshot of the accounts touched by a claim.
pub struct ClaimCoupon {
    /// The coupon record.
    pub coupon_data: CouponData,
    /// Address of the merchant record the escrow was derived from.
    pub merchant_key: AccountId,
    /// The merchant record itself.
    pub merchant: Merchant,
    /// The issuance escrow holding the not-yet-released unit.
    pub nft_escrow: TokenAccountState,
    /// The claiming user's wallet identity.
    pub user_key: AccountId,
    /// The claiming user's holding account for this asset.
    pub user_token_account: TokenAccountState,
}

impl ClaimCoupon {
    /// Account wiring and custody invariant: the record is valid, both
    /// holding accounts are accounts of the coupon's asset, the escrow is
    /// program-controlled through the merchant record, the user's account is
    /// the user's own, and at most one unit of the asset is in view.
    pub open spec fn wf(self) -> bool {
        &&& self.coupon_data.wf()
        &&& self.merchant.wf()
        &&& self.nft_escrow.mint == self.coupon_data.mint
        &&& self.nft_escrow.owner == self.merchant_key
        &&& self.user_token_account.mint == self.coupon_data.mint
        &&& self.user_token_account.owner == self.user_key
        &&& self.nft_escrow.amount + self.user_token_account.amount <= 1
    }
}

/// Whether a claim goes through: linked record, active, free, unexpired,
/// redemptions remaining, and the escrow still holds the unit.
pub open spec fn claim_allowed(ctx: ClaimCoupon, now: i64) -> bool {
    &&& ctx.coupon_data.merchant == ctx.merchant_key
    &&& ctx.coupon_data.is_active
    &&& ctx.coupon_data.price == 0
    &&& ctx.coupon_data.expiry_date > now
    &&& ctx.coupon_data.redemptions_remaining > 0
    &&& ctx.nft_escrow.amount == 1
}

/// The error a rejected claim reports, in the order the conditions are
/// checked.
pub open spec fn claim_error(ctx: ClaimCoupon, now: i64) -> CouponError {
    if ctx.coupon_data.merchant != ctx.merchant_key {
        CouponError::UnauthorizedMerchant
    } else if !ctx.coupon_data.is_active {
        CouponError::CouponInactive
    } else if ctx.coupon_data.price != 0 {
        CouponError::NotFreeCoupon
    } else if ctx.coupon_data.expiry_date <= now {
        CouponError::CouponExpired
    } else if ctx.coupon_data.redemptions_remaining == 0 {
        CouponError::NoRedemptionsRemaining
    } else {
        CouponError::InvalidNFTAmount
    }
}

/// The account snapshot after a successful claim: the unit has moved from the
/// escrow to the user and one redemption is consumed.
pub open spec fn claim_apply(ctx: ClaimCoupon) -> ClaimCoupon {
    ClaimCoupon {
        coupon_data: CouponData {
            redemptions_remaining: (ctx.coupon_data.redemptions_remaining - 1) as u8,
            ..ctx.coupon_data
        },
        nft_escrow: TokenAccountState { amount: 0, ..ctx.nft_escrow },
        user_token_account: TokenAccountState {
            amount: (ctx.user_token_account.amount + 1) as u64,
            ..ctx.user_token_account
        },
        ..ctx
    }
}

/// Claim a free coupon: transfer the single unit from the issuance escrow to
/// the user and consume one redemption. All-or-nothing: on error no account
/// changes.
pub fn handler(ctx: &mut ClaimCoupon, now: i64) -> (r: Result<(), CouponError>)
    requires
        old(ctx).wf(),
    ensures
        final(ctx).wf(),
        r is Ok <==> claim_allowed(*old(ctx), now),
        r is Ok ==> *final(ctx) == claim_apply(*old(ctx)),
        r is Err ==> *final(ctx) == *old(ctx),
        (r matches Err(e) ==> e == claim_error(*old(ctx), now)),
{
    if ctx.coupon_data.merchant != ctx.merchant_key {
        return Err(CouponError::UnauthorizedMerchant);
    }
    if !ctx.coupon_data.is_active {
        return Err(CouponError::CouponInactive);
    }
    if ctx.coupon_data.price != 0 {
        return Err(CouponError::NotFreeCoupon);
    }
    if ctx.coupon_data.expiry_date <= now {
        return Err(CouponError::CouponExpired);
    }
    if ctx.coupon_data.redemptions_remaining == 0 {
        return Err(CouponError::NoRedemptionsRemaining);
    }
    if ctx.nft_escrow.amount != 1 {
        return Err(CouponError::InvalidNFTAmount);
    }

    // Program-authorized transfer of the single unit out of the escrow.
    ctx.nft_escrow.amount = 0;
    ctx.user_token_account.amount = ctx.user_token_account.amount + 1;

    ctx.coupon_data.redemptions_remaining = ctx.coupon_data.redemptions_remaining - 1;

    Ok(())
}

} // verus!
