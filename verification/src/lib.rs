//! Custody-and-settlement engine for tokenized, redeemable discount vouchers.
//!
//! A merchant mints a voucher as a unique non-fungible asset, holds it under
//! program-exclusive escrow, and releases it to an end user either for free or
//! against a payment with an enforced revenue split. Vouchers can be resold
//! peer-to-peer, directly or through an escrow-mediated listing, and redeemed
//! until their uses are exhausted, at which point the backing asset is burned.
//!
//! Every instruction is modelled as a transition on a snapshot of the ledger
//! accounts it touches: the handler either commits the whole effect or returns
//! an error and leaves the snapshot exactly as it was, mirroring the
//! all-or-nothing semantics of the enclosing transaction.

pub mod claim_coupon;
pub mod create_coupon;
pub mod custody;
pub mod errors;
pub mod fees;
pub mod initialize_merchant;
pub mod lifecycle;
pub mod list_for_resale;
pub mod payments;
pub mod purchase_coupon;
pub mod purchase_from_resale;
pub mod redeem_coupon;
pub mod transfer_coupon;
pub mod update_coupon_status;
pub mod state;
