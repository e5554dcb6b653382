//! Issuance protocol: create a coupon record, materialize its asset, and lock
//! the single unit under the issuance escrow.
//!
//! The whole instruction commits as one unit: the coupon record is written
//! with a full allowance of redemptions, exactly one unit of the asset comes
//! into existence, that unit ends up in the program-controlled issuance
//! escrow, and the merchant's issuance counter is incremented. Any validation
//! failure aborts everything with the corresponding error.

use vstd::prelude::*;
use vstd::string::*;

use crate::errors::CouponError;
use crate::state::{AccountId, CouponCategory, CouponData, Merchant, MintState, TokenAccountState};

verus! {

/// The display name handed to the metadata service: the title, truncated to
/// its first 32 characters when longer.
pub open spec fn spec_nft_name(title: Seq<char>) -> Seq<char> {
    if title.len() > 32 {
        title.subrange(0, 32)
    } else {
        title
    }
}

/// Snapshot of the accounts touched by issuance.
///
/// The asset does not exist before the instruction runs: the mint is empty and
/// so are both holding accounts. The handler fills `coupon_data` from the
/// validated terms.
pub struct CreateCoupon {
    /// Address of the merchant record.
    pub merchant_key: AccountId,
    /// The merchant record itself.
    pub merchant: Merchant,
    /// The wallet that signed the instruction.
    pub merchant_authority: AccountId,
    /// The freshly generated asset mint.
    pub nft_mint: MintState,
    /// The merchant's own holding account, the temporary stop between mint and escrow.
    pub merchant_token_account: TokenAccountState,
    /// The issuance escrow, derived from (merchant, asset) and program-controlled.
    pub nft_escrow: TokenAccountState,
    /// The coupon record to be written.
    pub coupon_data: CouponData,
}

impl CreateCoupon {
    /// Pre-issuance well-formedness: the merchant record is valid, the asset
    /// does not exist yet, and both holding accounts are empty accounts of
    /// that asset wired to their owners.
    pub open spec fn fresh(self) -> bool {
        &&& self.merchant.wf()
        &&& self.nft_mint.supply == 0
        &&& self.merchant_token_account.mint == self.nft_mint.key
        &&& self.merchant_token_account.owner == self.merchant_authority
        &&& self.merchant_token_account.amount == 0
        &&& self.nft_escrow.mint == self.nft_mint.key
        &&& self.nft_escrow.owner == self.merchant_key
        &&& self.nft_escrow.amount == 0
    }
}

/// Whether issuance goes through: the signer controls the merchant record,
/// every term is in range, and the issuance counter has room.
pub open spec fn create_allowed(
    ctx: CreateCoupon,
    discount_percentage: u8,
    expiry_date: i64,
    max_redemptions: u8,
    now: i64,
) -> bool {
    &&& ctx.merchant.authority == ctx.merchant_authority
    &&& 1 <= discount_percentage <= 100
    &&& expiry_date > now
    &&& max_redemptions >= 1
    &&& ctx.merchant.total_coupons_created < u64::MAX
}

/// The error a rejected issuance reports, in the order the terms are checked.
pub open spec fn create_error(
    ctx: CreateCoupon,
    discount_percentage: u8,
    expiry_date: i64,
    max_redemptions: u8,
    now: i64,
) -> CouponError {
    if ctx.merchant.authority != ctx.merchant_authority {
        CouponError::UnauthorizedMerchant
    } else if !(1 <= discount_percentage <= 100) {
        CouponError::InvalidDiscountPercentage
    } else if expiry_date <= now {
        CouponError::InvalidExpiryDate
    } else if max_redemptions < 1 {
        CouponError::InvalidRedemptionAmount
    } else {
        CouponError::ArithmeticOverflow
    }
}

/// The account snapshot after a successful issuance: record written with the
/// full allowance and marked active, one unit minted and parked in the
/// escrow, counter incremented. The temporary holding account nets to empty.
pub open spec fn create_apply(
    ctx: CreateCoupon,
    discount_percentage: u8,
    expiry_date: i64,
    category: CouponCategory,
    max_redemptions: u8,
    price: u64,
) -> CreateCoupon {
    CreateCoupon {
        merchant: Merchant {
            total_coupons_created: (ctx.merchant.total_coupons_created + 1) as u64,
            ..ctx.merchant
        },
        nft_mint: MintState { supply: 1, ..ctx.nft_mint },
        nft_escrow: TokenAccountState { amount: 1, ..ctx.nft_escrow },
        coupon_data: CouponData {
            mint: ctx.nft_mint.key,
            merchant: ctx.merchant_key,
            discount_percentage,
            expiry_date,
            category,
            redemptions_remaining: max_redemptions,
            max_redemptions,
            is_active: true,
            price,
        },
        ..ctx
    }
}

/// Issue a coupon: validate the terms, write the record, bring exactly one
/// unit of the asset into existence and park it in the issuance escrow.
///
/// Returns the (possibly truncated) display name to hand to the metadata
/// service. On error, no account changes.
pub fn handler(
    ctx: &mut CreateCoupon,
    title: &str,
    discount_percentage: u8,
    expiry_date: i64,
    category: CouponCategory,
    max_redemptions: u8,
    price: u64,
    now: i64,
) -> (r: Result<String, CouponError>)
    requires
        old(ctx).fresh(),
    ensures
        r is Ok <==> create_allowed(*old(ctx), discount_percentage, expiry_date, max_redemptions, now),
        (r matches Ok(name) ==> {
            &&& name@ == spec_nft_name(title@)
            &&& *final(ctx) == create_apply(*old(ctx), discount_percentage, expiry_date, category, max_redemptions, price)
        }),
        r is Ok ==> final(ctx).coupon_data.wf() && final(ctx).nft_escrow.amount == 1
            && final(ctx).nft_mint.supply == 1
            && final(ctx).coupon_data.redemptions_remaining == max_redemptions,
        r is Err ==> *final(ctx) == *old(ctx),
        (r matches Err(e) ==> e == create_error(*old(ctx), discount_percentage, expiry_date, max_redemptions, now)),
{
    if ctx.merchant.authority != ctx.merchant_authority {
        return Err(CouponError::UnauthorizedMerchant);
    }
    if discount_percentage < 1 || discount_percentage > 100 {
        return Err(CouponError::InvalidDiscountPercentage);
    }
    if expiry_date <= now {
        return Err(CouponError::InvalidExpiryDate);
    }
    if max_redemptions < 1 {
        return Err(CouponError::InvalidRedemptionAmount);
    }
    let new_total = match ctx.merchant.total_coupons_created.checked_add(1) {
        Some(t) => t,
        None => {
            return Err(CouponError::ArithmeticOverflow);
        },
    };

    ctx.coupon_data.mint = ctx.nft_mint.key;
    ctx.coupon_data.merchant = ctx.merchant_key;
    ctx.coupon_data.discount_percentage = discount_percentage;
    ctx.coupon_data.expiry_date = expiry_date;
    ctx.coupon_data.category = category;
    ctx.coupon_data.redemptions_remaining = max_redemptions;
    ctx.coupon_data.max_redemptions = max_redemptions;
    ctx.coupon_data.is_active = true;
    ctx.coupon_data.price = price;

    let nft_name = truncate_title(title);

    // One unit comes into existence in the merchant's holding account, then
    // moves into the issuance escrow; the intermediate stop nets to empty.
    ctx.nft_mint.supply = 1;
    ctx.merchant_token_account.amount = 1;
    ctx.merchant_token_account.amount = 0;
    ctx.nft_escrow.amount = 1;

    ctx.merchant.total_coupons_created = new_total;

    Ok(nft_name)
}

/// Truncate a coupon title to the 32-character limit of the metadata service.
pub fn truncate_title(title: &str) -> (r: String)
    ensures
        r@ == spec_nft_name(title@),
{
    let len = title.unicode_len();
    if len > 32 {
        title.substring_char(0, 32).to_owned()
    } else {
        title.to_owned()
    }
}

} // verus!
