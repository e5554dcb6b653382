use nft_coupon::claim_coupon::{self, ClaimCoupon};
use nft_coupon::errors::CouponError;
use nft_coupon::purchase_coupon::{self, PurchaseCoupon};
use nft_coupon::state::{CouponCategory, CouponData, Merchant, TokenAccountState, Wallet};

const MINT: u64 = 7;
const MERCHANT_KEY: u64 = 3;
const AUTHORITY: u64 = 9;
const USER: u64 = 5;
const PLATFORM: u64 = 11;

fn coupon(price: u64, remaining: u8, max: u8, active: bool) -> CouponData {
    CouponData {
        mint: MINT,
        merchant: MERCHANT_KEY,
        discount_percentage: 20,
        expiry_date: 1_000,
        category: CouponCategory::FoodAndBeverage,
        redemptions_remaining: remaining,
        max_redemptions: max,
        is_active: active,
        price,
    }
}

fn merchant() -> Merchant {
    Merchant {
        authority: AUTHORITY,
        business_name: String::from("Corner Cafe"),
        total_coupons_created: 1,
    }
}

fn claim_ctx(price: u64, remaining: u8, active: bool, escrow_amount: u64) -> ClaimCoupon {
    ClaimCoupon {
        coupon_data: coupon(price, remaining, 3, active),
        merchant_key: MERCHANT_KEY,
        merchant: merchant(),
        nft_escrow: TokenAccountState { mint: MINT, owner: MERCHANT_KEY, amount: escrow_amount },
        user_key: USER,
        user_token_account: TokenAccountState { mint: MINT, owner: USER, amount: 0 },
    }
}

fn purchase_ctx(price: u64, remaining: u8, buyer_lamports: u64) -> PurchaseCoupon {
    PurchaseCoupon {
        coupon_data: coupon(price, remaining, 3, true),
        merchant_key: MERCHANT_KEY,
        merchant: merchant(),
        merchant_authority: Wallet { key: AUTHORITY, lamports: 500 },
        platform_wallet: Wallet { key: PLATFORM, lamports: 40 },
        nft_escrow: TokenAccountState { mint: MINT, owner: MERCHANT_KEY, amount: 1 },
        buyer_token_account: TokenAccountState { mint: MINT, owner: USER, amount: 0 },
        buyer: Wallet { key: USER, lamports: buyer_lamports },
    }
}

#[test]
fn claim_succeeds_and_moves_the_unit() {
    let mut ctx = claim_ctx(0, 2, true, 1);
    assert_eq!(claim_coupon::handler(&mut ctx, 100), Ok(()));
    assert_eq!(ctx.nft_escrow.amount, 0);
    assert_eq!(ctx.user_token_account.amount, 1);
    assert_eq!(ctx.coupon_data.redemptions_remaining, 1);
}

#[test]
fn claim_succeeds_iff_free_active_unexpired_with_remaining() {
    // Every combination of the four conditions; the escrow holds the unit.
    for (price, active, now, remaining) in [
        (0u64, true, 100i64, 2u8),
        (5, true, 100, 2),
        (0, false, 100, 2),
        (0, true, 1_000, 2),
        (0, true, 100, 0),
        (5, false, 1_000, 0),
    ] {
        let mut ctx = claim_ctx(price, remaining, active, 1);
        let before = ctx.coupon_data;
        let expected = price == 0 && active && now < 1_000 && remaining > 0;
        let r = claim_coupon::handler(&mut ctx, now);
        assert_eq!(r.is_ok(), expected);
        if !expected {
            // A failed claim leaves every account unchanged.
            assert_eq!(ctx.coupon_data, before);
            assert_eq!(ctx.nft_escrow.amount, 1);
            assert_eq!(ctx.user_token_account.amount, 0);
        }
    }
}

#[test]
fn claim_errors_name_the_violated_condition() {
    let mut wrong_merchant = claim_ctx(0, 2, true, 1);
    wrong_merchant.coupon_data.merchant = 77;
    assert_eq!(
        claim_coupon::handler(&mut wrong_merchant, 100),
        Err(CouponError::UnauthorizedMerchant)
    );

    let mut inactive = claim_ctx(0, 2, false, 1);
    assert_eq!(claim_coupon::handler(&mut inactive, 100), Err(CouponError::CouponInactive));

    let mut paid = claim_ctx(10, 2, true, 1);
    assert_eq!(claim_coupon::handler(&mut paid, 100), Err(CouponError::NotFreeCoupon));

    let mut expired = claim_ctx(0, 2, true, 1);
    assert_eq!(claim_coupon::handler(&mut expired, 2_000), Err(CouponError::CouponExpired));

    let mut spent = claim_ctx(0, 0, true, 1);
    assert_eq!(
        claim_coupon::handler(&mut spent, 100),
        Err(CouponError::NoRedemptionsRemaining)
    );

    let mut empty_escrow = claim_ctx(0, 2, true, 0);
    assert_eq!(
        claim_coupon::handler(&mut empty_escrow, 100),
        Err(CouponError::InvalidNFTAmount)
    );
}

#[test]
fn purchase_splits_the_payment_exactly() {
    let mut ctx = purchase_ctx(1000, 2, 1_500);
    assert_eq!(purchase_coupon::handler(&mut ctx, 100), Ok(()));
    assert_eq!(ctx.buyer.lamports, 500);
    assert_eq!(ctx.merchant_authority.lamports, 500 + 975);
    assert_eq!(ctx.platform_wallet.lamports, 40 + 25);
    assert_eq!(ctx.nft_escrow.amount, 0);
    assert_eq!(ctx.buyer_token_account.amount, 1);
    assert_eq!(ctx.coupon_data.redemptions_remaining, 1);
}

#[test]
fn purchase_of_free_coupon_is_rejected() {
    let mut ctx = purchase_ctx(0, 2, 1_500);
    assert_eq!(purchase_coupon::handler(&mut ctx, 100), Err(CouponError::NotPaidCoupon));
}

#[test]
fn purchase_with_short_buyer_is_rejected_unchanged() {
    let mut ctx = purchase_ctx(1000, 2, 999);
    assert_eq!(
        purchase_coupon::handler(&mut ctx, 100),
        Err(CouponError::InsufficientPayment)
    );
    assert_eq!(ctx.buyer.lamports, 999);
    assert_eq!(ctx.merchant_authority.lamports, 500);
    assert_eq!(ctx.platform_wallet.lamports, 40);
    assert_eq!(ctx.nft_escrow.amount, 1);
}

#[test]
fn purchase_fee_overflow_is_an_arithmetic_error() {
    let mut ctx = purchase_ctx(u64::MAX / 25 + 1, 2, u64::MAX);
    assert_eq!(
        purchase_coupon::handler(&mut ctx, 100),
        Err(CouponError::ArithmeticOverflow)
    );
}

#[test]
fn purchase_recipient_overflow_is_an_arithmetic_error() {
    let mut ctx = purchase_ctx(1000, 2, 1_500);
    ctx.merchant_authority.lamports = u64::MAX - 10;
    assert_eq!(
        purchase_coupon::handler(&mut ctx, 100),
        Err(CouponError::ArithmeticOverflow)
    );
    assert_eq!(ctx.merchant_authority.lamports, u64::MAX - 10);
    assert_eq!(ctx.buyer.lamports, 1_500);
}

#[test]
fn second_purchase_of_same_asset_fails_on_empty_escrow() {
    let mut ctx = purchase_ctx(1000, 2, 10_000);
    assert_eq!(purchase_coupon::handler(&mut ctx, 100), Ok(()));
    assert_eq!(ctx.nft_escrow.amount, 0);
    // Model a different buyer trying again against the emptied escrow.
    ctx.buyer_token_account.amount = 0;
    assert_eq!(purchase_coupon::handler(&mut ctx, 100), Err(CouponError::InvalidNFTAmount));
}
