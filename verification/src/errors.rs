//! Error taxonomy for the coupon engine.
//!
//! Every rejected precondition maps to exactly one named error kind; a handler
//! that returns an error leaves all account state untouched.

use vstd::prelude::*;

verus! {

/// Errors raised by the coupon instructions.
#[derive(Clone, Copy, Debug, PartialEq, Eq, Structural)]
pub enum CouponError {
    /// The coupon has expired and can no longer be redeemed.
    CouponExpired,
    /// The coupon has already been fully redeemed.
    CouponFullyRedeemed,
    /// The coupon is not active.
    CouponNotActive,
    /// Invalid discount percentage (must be 1-100).
    InvalidDiscountPercentage,
    /// Expiry date must be in the future.
    InvalidExpiryDate,
    /// Unauthorized: only the merchant can perform this action.
    UnauthorizedMerchant,
    /// Unauthorized: only the coupon owner can perform this action.
    UnauthorizedOwner,
    /// Business name is too long (max 100 characters).
    BusinessNameTooLong,
    /// Invalid redemption amount.
    InvalidRedemptionAmount,
    /// Arithmetic overflow occurred.
    ArithmeticOverflow,
    /// This coupon is not free - payment required.
    NotFreeCoupon,
    /// This coupon is not paid - cannot purchase.
    NotPaidCoupon,
    /// Insufficient payment amount.
    InsufficientPayment,
    /// Coupon is inactive.
    CouponInactive,
    /// No redemptions remaining for this coupon.
    NoRedemptionsRemaining,
    /// Invalid price - must be greater than 0.
    InvalidPrice,
    /// Invalid NFT amount - the holding account must contain exactly 1 unit.
    InvalidNFTAmount,
}

/// Errors raised by the resale listing instruction.
#[derive(Clone, Copy, Debug, PartialEq, Eq, Structural)]
pub enum ListingError {
    /// Seller does not own the NFT (amount != 1).
    SellerDoesNotOwnNFT,
}

} // verus!
