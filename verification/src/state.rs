//! Account-state model of the coupon engine.
//!
//! Each instruction operates on a snapshot of the ledger accounts it touches.
//! Account identities (addresses) are abstracted to plain numbers: the engine's
//! rules only ever compare them for equality, never inspect their bytes.

use vstd::prelude::*;

verus! {

/// A ledger account identity (an address), abstracted to a plain number.
pub type AccountId = u64;

/// Category of goods or services a coupon applies to.
#[derive(Clone, Copy, Debug, PartialEq, Eq, Structural)]
pub enum CouponCategory {
    FoodAndBeverage,
    Retail,
    Services,
    Entertainment,
    Travel,
    Other,
}

/// A merchant registry record, keyed by the merchant's authority identity.
///
/// Created once per authority; only the issuance instruction mutates it
/// (incrementing the coupon counter).
#[derive(Clone, Debug)]
pub struct Merchant {
    /// Wallet that signs for this merchant.
    pub authority: AccountId,
    /// Display name, at most 100 characters.
    pub business_name: String,
    /// How many coupons this merchant has issued.
    pub total_coupons_created: u64,
}

impl Merchant {
    /// Registry-record invariant: the business name fits the declared bound.
    pub open spec fn wf(self) -> bool {
        self.business_name@.len() <= 100
    }
}

/// Terms and mutable redemption state of one coupon, keyed by its asset mint.
#[derive(Clone, Copy, Debug, PartialEq, Eq, Structural)]
pub struct CouponData {
    /// The asset (mint) this record describes.
    pub mint: AccountId,
    /// The merchant record that issued the coupon.
    pub merchant: AccountId,
    /// Discount granted on redemption, in percent (1 to 100).
    pub discount_percentage: u8,
    /// Unix timestamp after which the coupon can no longer be released or redeemed.
    pub expiry_date: i64,
    /// What the coupon applies to.
    pub category: CouponCategory,
    /// Uses left; decremented by release and redemption, never below zero.
    pub redemptions_remaining: u8,
    /// Uses granted at issuance; at least one, never changed afterwards.
    pub max_redemptions: u8,
    /// Merchant-controlled toggle; an inactive coupon cannot be released or redeemed.
    pub is_active: bool,
    /// Release price in lamports; zero means the coupon is claimed for free.
    pub price: u64,
}

impl CouponData {
    /// Record invariant, established at issuance and preserved by every
    /// instruction: the remaining-use counter stays within `[0, max_redemptions]`
    /// and the issuance terms are in range.
    pub open spec fn wf(self) -> bool {
        &&& 1 <= self.discount_percentage <= 100
        &&& 1 <= self.max_redemptions
        &&& self.redemptions_remaining <= self.max_redemptions
    }
}

/// Snapshot of a token holding account: which asset it holds, which identity
/// may move its units, and how many units it currently holds.
#[derive(Clone, Copy, Debug, PartialEq, Eq, Structural)]
pub struct TokenAccountState {
    /// The asset this account holds units of.
    pub mint: AccountId,
    /// The identity whose signature (or derived signing proof) moves the units.
    pub owner: AccountId,
    /// Units currently held.
    pub amount: u64,
}

/// Snapshot of an asset mint: how many units of the asset exist at all.
#[derive(Clone, Copy, Debug, PartialEq, Eq, Structural)]
pub struct MintState {
    /// The asset's identity.
    pub key: AccountId,
    /// Units in existence; a voucher asset never exceeds one.
    pub supply: u64,
}

/// Snapshot of a fungible-balance wallet account.
#[derive(Clone, Copy, Debug, PartialEq, Eq, Structural)]
pub struct Wallet {
    /// The wallet's identity.
    pub key: AccountId,
    /// Balance in lamports.
    pub lamports: u64,
}

} // verus!
