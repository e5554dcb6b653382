//! Status toggle: merchant-authorized activation or deactivation of a coupon.
//!
//! Flips only `is_active`; redemption state and expiry are untouched. Only the
//! authority that owns the linked merchant record may flip it.

use vstd::prelude::*;

use crate::errors::CouponError;
use crate::state::{AccountId, CouponData, Merchant};

verus! {

/// Snapshot of the accounts touched by a status update.
pub struct UpdateCouponStatus {
    /// The coupon record.
    pub coupon_data: CouponData,
    /// Address of the merchant record.
    pub merchant_key: AccountId,
    /// The merchant record itself.
    pub merchant: Merchant,
    /// The wallet that signed the instruction.
    pub authority_key: AccountId,
}

impl UpdateCouponStatus {
    /// The records themselves are valid.
    pub open spec fn wf(self) -> bool {
        &&& self.coupon_data.wf()
        &&& self.merchant.wf()
    }
}

/// Whether the toggle goes through: the coupon belongs to the presented
/// merchant record and the signer is that record's authority.
pub open spec fn update_status_allowed(ctx: UpdateCouponStatus) -> bool {
    &&& ctx.coupon_data.merchant == ctx.merchant_key
    &&& ctx.merchant.authority == ctx.authority_key
}

/// The account snapshot after a successful toggle.
pub open spec fn update_status_apply(ctx: UpdateCouponStatus, is_active: bool) -> UpdateCouponStatus {
    UpdateCouponStatus {
        coupon_data: CouponData { is_active, ..ctx.coupon_data },
        ..ctx
    }
}

/// Activate or deactivate a coupon. Only the owning merchant's authority may
/// do so; nothing else about the record changes.
pub fn handler(ctx: &mut UpdateCouponStatus, is_active: bool) -> (r: Result<(), CouponError>)
    requires
        old(ctx).wf(),
    ensures
        final(ctx).wf(),
        r is Ok <==> update_status_allowed(*old(ctx)),
        r is Ok ==> *final(ctx) == update_status_apply(*old(ctx), is_active)
            && final(ctx).coupon_data.is_active == is_active
            && final(ctx).coupon_data.redemptions_remaining == old(ctx).coupon_data.redemptions_remaining
            && final(ctx).coupon_data.expiry_date == old(ctx).coupon_data.expiry_date,
        r is Err ==> *final(ctx) == *old(ctx)
            && r == Err::<(), CouponError>(CouponError::UnauthorizedMerchant),
{
    if ctx.coupon_data.merchant != ctx.merchant_key {
        return Err(CouponError::UnauthorizedMerchant);
    }
    if ctx.merchant.authority != ctx.authority_key {
        return Err(CouponError::UnauthorizedMerchant);
    }
    ctx.coupon_data.is_active = is_active;
    Ok(())
}

} // verus!
