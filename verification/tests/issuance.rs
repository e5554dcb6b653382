use nft_coupon::create_coupon::{self, truncate_title, CreateCoupon};
use nft_coupon::errors::CouponError;
use nft_coupon::initialize_merchant;
use nft_coupon::state::{CouponCategory, CouponData, Merchant, MintState, TokenAccountState};
use nft_coupon::update_coupon_status::{self, UpdateCouponStatus};

const MINT: u64 = 7;
const MERCHANT_KEY: u64 = 3;
const AUTHORITY: u64 = 9;

fn fresh_ctx() -> CreateCoupon {
    CreateCoupon {
        merchant_key: MERCHANT_KEY,
        merchant: Merchant {
            authority: AUTHORITY,
            business_name: String::from("Corner Cafe"),
            total_coupons_created: 4,
        },
        merchant_authority: AUTHORITY,
        nft_mint: MintState { key: MINT, supply: 0 },
        merchant_token_account: TokenAccountState { mint: MINT, owner: AUTHORITY, amount: 0 },
        nft_escrow: TokenAccountState { mint: MINT, owner: MERCHANT_KEY, amount: 0 },
        coupon_data: CouponData {
            mint: 0,
            merchant: 0,
            discount_percentage: 1,
            expiry_date: 0,
            category: CouponCategory::Other,
            redemptions_remaining: 0,
            max_redemptions: 1,
            is_active: false,
            price: 0,
        },
    }
}

#[test]
fn issuance_writes_the_record_and_fills_the_escrow() {
    let mut ctx = fresh_ctx();
    let name = create_coupon::handler(
        &mut ctx,
        "Half-price espresso",
        50,
        900,
        CouponCategory::FoodAndBeverage,
        3,
        0,
        100,
    )
    .unwrap();
    assert_eq!(name, "Half-price espresso");

    // The record carries the validated terms with a full allowance.
    assert_eq!(ctx.coupon_data.mint, MINT);
    assert_eq!(ctx.coupon_data.merchant, MERCHANT_KEY);
    assert_eq!(ctx.coupon_data.discount_percentage, 50);
    assert_eq!(ctx.coupon_data.expiry_date, 900);
    assert_eq!(ctx.coupon_data.redemptions_remaining, 3);
    assert_eq!(ctx.coupon_data.max_redemptions, 3);
    assert!(ctx.coupon_data.is_active);
    assert_eq!(ctx.coupon_data.price, 0);

    // Exactly one unit exists and it sits in the issuance escrow.
    assert_eq!(ctx.nft_mint.supply, 1);
    assert_eq!(ctx.nft_escrow.amount, 1);
    assert_eq!(ctx.merchant_token_account.amount, 0);

    // The merchant's counter moved.
    assert_eq!(ctx.merchant.total_coupons_created, 5);
}

#[test]
fn issuance_truncates_long_titles_to_32_characters() {
    let mut ctx = fresh_ctx();
    let long = "An unreasonably verbose coupon title that goes on";
    let name = create_coupon::handler(
        &mut ctx,
        long,
        10,
        900,
        CouponCategory::Retail,
        1,
        0,
        100,
    )
    .unwrap();
    assert_eq!(name.chars().count(), 32);
    assert_eq!(name, long.chars().take(32).collect::<String>());
}

#[test]
fn title_truncation_counts_characters_not_bytes() {
    let title = " крапка".repeat(8);
    let truncated = truncate_title(&title);
    assert_eq!(truncated.chars().count(), 32);
    assert_eq!(truncated, title.chars().take(32).collect::<String>());
    assert_eq!(truncate_title(""), "");
    assert_eq!(truncate_title("short"), "short");
}

#[test]
fn issuance_validates_every_term() {
    let mut wrong_signer = fresh_ctx();
    wrong_signer.merchant_authority = 42;
    assert_eq!(
        create_coupon::handler(&mut wrong_signer, "t", 10, 900, CouponCategory::Other, 1, 0, 100),
        Err(CouponError::UnauthorizedMerchant)
    );

    let mut ctx = fresh_ctx();
    assert_eq!(
        create_coupon::handler(&mut ctx, "t", 0, 900, CouponCategory::Other, 1, 0, 100),
        Err(CouponError::InvalidDiscountPercentage)
    );
    assert_eq!(
        create_coupon::handler(&mut ctx, "t", 101, 900, CouponCategory::Other, 1, 0, 100),
        Err(CouponError::InvalidDiscountPercentage)
    );
    assert_eq!(
        create_coupon::handler(&mut ctx, "t", 10, 100, CouponCategory::Other, 1, 0, 100),
        Err(CouponError::InvalidExpiryDate)
    );
    assert_eq!(
        create_coupon::handler(&mut ctx, "t", 10, 900, CouponCategory::Other, 0, 0, 100),
        Err(CouponError::InvalidRedemptionAmount)
    );

    // Nothing was minted by any rejected attempt.
    assert_eq!(ctx.nft_mint.supply, 0);
    assert_eq!(ctx.nft_escrow.amount, 0);
    assert_eq!(ctx.merchant.total_coupons_created, 4);
}

#[test]
fn issuance_counter_overflow_is_an_arithmetic_error() {
    let mut ctx = fresh_ctx();
    ctx.merchant.total_coupons_created = u64::MAX;
    assert_eq!(
        create_coupon::handler(&mut ctx, "t", 10, 900, CouponCategory::Other, 1, 0, 100),
        Err(CouponError::ArithmeticOverflow)
    );
    assert_eq!(ctx.nft_mint.supply, 0);
}

#[test]
fn merchant_registration_starts_with_an_empty_counter() {
    let m = initialize_merchant::handler(AUTHORITY, String::from("Corner Cafe")).unwrap();
    assert_eq!(m.authority, AUTHORITY);
    assert_eq!(m.business_name, "Corner Cafe");
    assert_eq!(m.total_coupons_created, 0);
}

#[test]
fn merchant_registration_accepts_at_most_100_characters() {
    let exactly_100 = "x".repeat(100);
    assert!(initialize_merchant::handler(AUTHORITY, exactly_100).is_ok());
    let too_long = "x".repeat(101);
    assert!(matches!(
        initialize_merchant::handler(AUTHORITY, too_long),
        Err(CouponError::BusinessNameTooLong)
    ));
}

#[test]
fn status_toggle_flips_only_the_active_flag() {
    let mut ctx = UpdateCouponStatus {
        coupon_data: CouponData {
            mint: MINT,
            merchant: MERCHANT_KEY,
            discount_percentage: 10,
            expiry_date: 900,
            category: CouponCategory::Travel,
            redemptions_remaining: 2,
            max_redemptions: 3,
            is_active: true,
            price: 5,
        },
        merchant_key: MERCHANT_KEY,
        merchant: Merchant {
            authority: AUTHORITY,
            business_name: String::from("Corner Cafe"),
            total_coupons_created: 1,
        },
        authority_key: AUTHORITY,
    };
    assert_eq!(update_coupon_status::handler(&mut ctx, false), Ok(()));
    assert!(!ctx.coupon_data.is_active);
    assert_eq!(ctx.coupon_data.redemptions_remaining, 2);
    assert_eq!(ctx.coupon_data.expiry_date, 900);

    assert_eq!(update_coupon_status::handler(&mut ctx, true), Ok(()));
    assert!(ctx.coupon_data.is_active);

    ctx.authority_key = 42;
    assert_eq!(
        update_coupon_status::handler(&mut ctx, false),
        Err(CouponError::UnauthorizedMerchant)
    );
    assert!(ctx.coupon_data.is_active);
}
