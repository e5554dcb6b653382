//! Redemption protocol: consume one use of a held coupon, burning the asset
//! when its uses are exhausted.
//!
//! The holder presents the asset; if the coupon is active, unexpired and has
//! redemptions remaining, one use is consumed. A single-use coupon, or the
//! redemption that brings the counter to zero, burns the single held unit: the
//! asset then no longer exists. Every successful redemption yields an
//! append-only audit record for external observers.

use vstd::prelude::*;

use crate::errors::CouponError;
use crate::state::{AccountId, CouponData, MintState, TokenAccountState};

verus! {

/// The audit record emitted for every successful redemption.
#[derive(Clone, Copy, Debug, PartialEq, Eq, Structural)]
pub struct RedemptionEvent {
    /// The redeemed coupon's asset.
    pub nft_mint: AccountId,
    /// The merchant record the coupon belongs to.
    pub merchant: AccountId,
    /// The holder who redeemed.
    pub user: AccountId,
    /// Uses left after this redemption.
    pub redemptions_remaining: u8,
    /// When the redemption happened.
    pub timestamp: i64,
}

/// Snapshot of the accounts touched by a redemption.
pub struct RedeemCoupon {
    /// The coupon record.
    pub coupon_data: CouponData,
    /// The asset's mint.
    pub nft_mint: MintState,
    /// The holder's account for this asset.
    pub nft_token_account: TokenAccountState,
    /// The holder's wallet identity.
    pub user_key: AccountId,
}

impl RedeemCoupon {
    /// Account wiring and supply invariant: the record is valid, the holding
    /// account is the signing user's account of the coupon's asset, and the
    /// holding never exceeds the supply, which never exceeds one unit.
    pub open spec fn wf(self) -> bool {
        &&& self.coupon_data.wf()
        &&& self.nft_mint.key == self.coupon_data.mint
        &&& self.nft_token_account.mint == self.coupon_data.mint
        &&& self.nft_token_account.owner == self.user_key
        &&& self.nft_token_account.amount <= self.nft_mint.supply
        &&& self.nft_mint.supply <= 1
    }
}

/// Whether a redemption goes through: active, unexpired, uses remaining, and
/// the caller actually holds the asset.
pub open spec fn redeem_allowed(ctx: RedeemCoupon, now: i64) -> bool {
    &&& ctx.coupon_data.is_active
    &&& ctx.coupon_data.expiry_date > now
    &&& ctx.coupon_data.redemptions_remaining > 0
    &&& ctx.nft_token_account.amount >= 1
}

/// The error a rejected redemption reports, in the order the conditions are
/// checked.
pub open spec fn redeem_error(ctx: RedeemCoupon, now: i64) -> CouponError {
    if !ctx.coupon_data.is_active {
        CouponError::CouponNotActive
    } else if ctx.coupon_data.expiry_date <= now {
        CouponError::CouponExpired
    } else if ctx.coupon_data.redemptions_remaining == 0 {
        CouponError::CouponFullyRedeemed
    } else {
        CouponError::UnauthorizedOwner
    }
}

/// Whether this redemption extinguishes the asset: single-use coupon, or the
/// decrement brings the remaining uses to zero.
pub open spec fn redeem_burns(c: CouponData) -> bool {
    c.max_redemptions == 1 || c.redemptions_remaining == 1
}

/// The account snapshot after a successful redemption: one use consumed, and
/// the single held unit burned when the coupon is spent.
pub open spec fn redeem_apply(ctx: RedeemCoupon) -> RedeemCoupon {
    let c = ctx.coupon_data;
    let burned = redeem_burns(c);
    RedeemCoupon {
        coupon_data: CouponData {
            redemptions_remaining: (c.redemptions_remaining - 1) as u8,
            ..c
        },
        nft_mint: MintState {
            supply: if burned { (ctx.nft_mint.supply - 1) as u64 } else { ctx.nft_mint.supply },
            ..ctx.nft_mint
        },
        nft_token_account: TokenAccountState {
            amount: if burned { (ctx.nft_token_account.amount - 1) as u64 } else { ctx.nft_token_account.amount },
            ..ctx.nft_token_account
        },
        ..ctx
    }
}

/// The audit record a successful redemption at time `now` yields.
pub open spec fn redeem_event(ctx: RedeemCoupon, now: i64) -> RedemptionEvent {
    RedemptionEvent {
        nft_mint: ctx.coupon_data.mint,
        merchant: ctx.coupon_data.merchant,
        user: ctx.user_key,
        redemptions_remaining: (ctx.coupon_data.redemptions_remaining - 1) as u8,
        timestamp: now,
    }
}

/// Redeem one use of a held coupon, burning the asset when its uses are
/// exhausted. Returns the audit record of the redemption. All-or-nothing: on
/// error no account changes.
pub fn handler(ctx: &mut RedeemCoupon, now: i64) -> (r: Result<RedemptionEvent, CouponError>)
    requires
        old(ctx).wf(),
    ensures
        final(ctx).wf(),
        r is Ok <==> redeem_allowed(*old(ctx), now),
        (r matches Ok(ev) ==> {
            &&& *final(ctx) == redeem_apply(*old(ctx))
            &&& ev == redeem_event(*old(ctx), now)
        }),
        r is Ok && redeem_burns(old(ctx).coupon_data) ==> final(ctx).nft_mint.supply == 0,
        r is Ok && !redeem_burns(old(ctx).coupon_data)
            ==> final(ctx).nft_token_account == old(ctx).nft_token_account
                && final(ctx).nft_mint == old(ctx).nft_mint,
        r is Err ==> *final(ctx) == *old(ctx),
        (r matches Err(e) ==> e == redeem_error(*old(ctx), now)),
{
    if !ctx.coupon_data.is_active {
        return Err(CouponError::CouponNotActive);
    }
    if ctx.coupon_data.expiry_date <= now {
        return Err(CouponError::CouponExpired);
    }
    if ctx.coupon_data.redemptions_remaining == 0 {
        return Err(CouponError::CouponFullyRedeemed);
    }
    if ctx.nft_token_account.amount < 1 {
        return Err(CouponError::UnauthorizedOwner);
    }

    let remaining_before = ctx.coupon_data.redemptions_remaining;
    ctx.coupon_data.redemptions_remaining = remaining_before - 1;

    // A single-use coupon, or the last remaining use, extinguishes the asset.
    if ctx.coupon_data.max_redemptions == 1 || remaining_before == 1 {
        ctx.nft_token_account.amount = ctx.nft_token_account.amount - 1;
        ctx.nft_mint.supply = ctx.nft_mint.supply - 1;
    }

    Ok(RedemptionEvent {
        nft_mint: ctx.coupon_data.mint,
        merchant: ctx.coupon_data.merchant,
        user: ctx.user_key,
        redemptions_remaining: ctx.coupon_data.redemptions_remaining,
        timestamp: now,
    })
}

} // verus!
