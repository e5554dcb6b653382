//! Lifecycle laws: what holds across successive instructions.
//!
//! Each handler's contract pins one transition exactly; the lemmas here chain
//! those transitions: an issuance escrow releases its unit exactly once, a
//! listing is consumed by exactly one resale purchase, and a coupon's
//! redemptions run down monotonically until the asset is burned.

use vstd::prelude::*;

use crate::claim_coupon::{claim_allowed, claim_apply, ClaimCoupon};
use crate::errors::CouponError;
use crate::fees::{spec_counterparty_amount, spec_platform_fee};
use crate::list_for_resale::{list_allowed, list_apply, ListForResale};
use crate::payments::payment_allowed;
use crate::purchase_coupon::{purchase_allowed, purchase_apply, PurchaseCoupon};
use crate::purchase_from_resale::{
    resale_purchase_allowed, resale_purchase_apply, PurchaseFromResale,
};
use crate::redeem_coupon::{redeem_allowed, redeem_apply, redeem_error, RedeemCoupon};

verus! {

/// Law: a successful claim empties the issuance escrow, and no later claim or
/// purchase against the same escrow account can succeed — the unit is
/// released exactly once.
pub proof fn lemma_claim_releases_escrow_once(
    c: ClaimCoupon,
    now: i64,
    c2: ClaimCoupon,
    p2: PurchaseCoupon,
    now2: i64,
)
    requires
        c.wf(),
        claim_allowed(c, now),
        c2.nft_escrow == claim_apply(c).nft_escrow,
        p2.nft_escrow == claim_apply(c).nft_escrow,
    ensures
        claim_apply(c).nft_escrow.amount == 0,
        !claim_allowed(c2, now2),
        !purchase_allowed(p2, now2),
{
}

/// Law: a successful purchase empties the issuance escrow, and no later claim
/// or purchase against the same escrow account can succeed.
pub proof fn lemma_purchase_releases_escrow_once(
    p: PurchaseCoupon,
    now: i64,
    c2: ClaimCoupon,
    p2: PurchaseCoupon,
    now2: i64,
)
    requires
        p.wf(),
        purchase_allowed(p, now),
        c2.nft_escrow == purchase_apply(p).nft_escrow,
        p2.nft_escrow == purchase_apply(p).nft_escrow,
    ensures
        purchase_apply(p).nft_escrow.amount == 0,
        !claim_allowed(c2, now2),
        !purchase_allowed(p2, now2),
{
}

/// Law: a coupon whose issuance escrow still holds the unit is claimable
/// exactly when it is free, active, unexpired and has redemptions remaining.
pub proof fn lemma_claim_release_condition(c: ClaimCoupon, now: i64)
    requires
        c.wf(),
        c.coupon_data.merchant == c.merchant_key,
        c.nft_escrow.amount == 1,
    ensures
        claim_allowed(c, now) <==> {
            &&& c.coupon_data.price == 0
            &&& c.coupon_data.is_active
            &&& now < c.coupon_data.expiry_date
            &&& c.coupon_data.redemptions_remaining > 0
        },
{
}

/// Law: listing parks the single unit in the resale escrow, and one resale
/// purchase releases it, crediting the seller with 97.5% of the declared
/// price and the platform with the 2.5% fee — after which the escrow is empty
/// and the buyer holds the unit.
pub proof fn lemma_list_then_resale_purchase(l: ListForResale, p: PurchaseFromResale, price: u64)
    requires
        l.wf(),
        list_allowed(l),
        p.wf(),
        p.resale_escrow == list_apply(l).resale_escrow,
        price > 0,
        payment_allowed(p.buyer, p.seller, p.platform_wallet, price),
    ensures
        list_apply(l).resale_escrow.amount == 1,
        list_apply(l).seller_token_account.amount == 0,
        resale_purchase_allowed(p, price),
        resale_purchase_apply(p, price).resale_escrow.amount == 0,
        resale_purchase_apply(p, price).buyer_token_account.amount == p.buyer_token_account.amount + 1,
        resale_purchase_apply(p, price).seller.lamports == p.seller.lamports + spec_counterparty_amount(price),
        resale_purchase_apply(p, price).platform_wallet.lamports == p.platform_wallet.lamports + spec_platform_fee(price),
        !resale_purchase_allowed(resale_purchase_apply(p, price), price),
{
}

/// Law: a single-use coupon allows exactly one redemption. That redemption
/// burns the asset — its supply drops to zero — and any later attempt fails
/// as fully redeemed.
pub proof fn lemma_single_use_redemption(ctx: RedeemCoupon, now: i64, now2: i64)
    requires
        ctx.wf(),
        ctx.coupon_data.max_redemptions == 1,
        redeem_allowed(ctx, now),
        now2 < ctx.coupon_data.expiry_date,
    ensures
        redeem_apply(ctx).coupon_data.redemptions_remaining == 0,
        redeem_apply(ctx).nft_mint.supply == 0,
        redeem_apply(ctx).nft_token_account.amount == 0,
        !redeem_allowed(redeem_apply(ctx), now2),
        redeem_error(redeem_apply(ctx), now2) == CouponError::CouponFullyRedeemed,
{
}

/// Law: a three-use coupon allows exactly three successive redemptions,
/// counting 3 → 2 → 1 → 0. The asset survives the first two and is burned by
/// the third — the one that brings the count to zero — and a fourth attempt
/// fails as fully redeemed.
pub proof fn lemma_triple_use_redemption(ctx: RedeemCoupon, now2: i64, now3: i64, now4: i64, now1: i64)
    requires
        ctx.wf(),
        ctx.coupon_data.max_redemptions == 3,
        ctx.coupon_data.redemptions_remaining == 3,
        redeem_allowed(ctx, now1),
        now2 < ctx.coupon_data.expiry_date,
        now3 < ctx.coupon_data.expiry_date,
        now4 < ctx.coupon_data.expiry_date,
    ensures
        ({
            let first = redeem_apply(ctx);
            let second = redeem_apply(first);
            let third = redeem_apply(second);
            &&& first.coupon_data.redemptions_remaining == 2
            &&& first.nft_mint.supply == ctx.nft_mint.supply
            &&& redeem_allowed(first, now2)
            &&& second.coupon_data.redemptions_remaining == 1
            &&& second.nft_mint.supply == ctx.nft_mint.supply
            &&& redeem_allowed(second, now3)
            &&& third.coupon_data.redemptions_remaining == 0
            &&& third.nft_mint.supply == 0
            &&& !redeem_allowed(third, now4)
            &&& redeem_error(third, now4) == CouponError::CouponFullyRedeemed
        }),
{
}

} // verus!
