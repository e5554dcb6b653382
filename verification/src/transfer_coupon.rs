//! Direct peer-to-peer resale: a split payment and a holder-authorized asset
//! transfer in one atomic unit, with no escrow in between.
//!
//! Both parties are present in the same transaction: the buyer pays the
//! agreed price (97.5% to the seller, 2.5% to the platform) and the seller's
//! single unit moves straight to the buyer. If the seller does not hold the
//! unit, the price is zero, or a payment leg cannot land, nothing moves.

use vstd::prelude::*;

use crate::errors::CouponError;
use crate::payments::{pay_with_fee_split, payment_allowed, payment_apply, payment_error};
use crate::state::{AccountId, TokenAccountState, Wallet};

verus! {

/// Snapshot of the accounts touched by a direct peer-to-peer transfer.
pub struct TransferCoupon {
    /// The asset being resold.
    pub nft_mint_key: AccountId,
    /// The seller's holding account, which must contain the single unit.
    pub seller_token_account: TokenAccountState,
    /// The buyer's holding account for this asset.
    pub buyer_token_account: TokenAccountState,
    /// The seller's wallet, receiving 97.5% of the payment.
    pub seller: Wallet,
    /// The buyer's wallet, paying the price.
    pub buyer: Wallet,
    /// The platform's fee wallet, receiving 2.5% of the payment.
    pub platform_wallet: Wallet,
}

impl TransferCoupon {
    /// Account wiring and custody invariant: both holding accounts are
    /// accounts of the resold asset wired to their owners, at most one unit
    /// of the asset is in view, and three distinct wallets.
    pub open spec fn wf(self) -> bool {
        &&& self.seller_token_account.mint == self.nft_mint_key
        &&& self.seller_token_account.owner == self.seller.key
        &&& self.buyer_token_account.mint == self.nft_mint_key
        &&& self.buyer_token_account.owner == self.buyer.key
        &&& self.seller_token_account.amount + self.buyer_token_account.amount <= 1
        &&& self.buyer.key != self.seller.key
        &&& self.buyer.key != self.platform_wallet.key
        &&& self.seller.key != self.platform_wallet.key
    }
}

/// Whether a peer-to-peer transfer goes through: the seller holds the unit,
/// the declared price is positive, and the split payment can land.
pub open spec fn transfer_allowed(ctx: TransferCoupon, price_lamports: u64) -> bool {
    &&& ctx.seller_token_account.amount == 1
    &&& price_lamports > 0
    &&& payment_allowed(ctx.buyer, ctx.seller, ctx.platform_wallet, price_lamports)
}

/// The error a rejected transfer reports, in the order the conditions are
/// checked.
pub open spec fn transfer_error(ctx: TransferCoupon, price_lamports: u64) -> CouponError {
    if ctx.seller_token_account.amount != 1 {
        CouponError::InvalidNFTAmount
    } else if price_lamports == 0 {
        CouponError::InvalidPrice
    } else {
        payment_error(ctx.buyer, ctx.seller, ctx.platform_wallet, price_lamports)
    }
}

/// The account snapshot after a successful transfer: balances settled by the
/// fee split and the unit moved from the seller to the buyer.
pub open spec fn transfer_apply(ctx: TransferCoupon, price_lamports: u64) -> TransferCoupon {
    let settled = payment_apply(ctx.buyer, ctx.seller, ctx.platform_wallet, price_lamports);
    TransferCoupon {
        buyer: settled.0,
        seller: settled.1,
        platform_wallet: settled.2,
        seller_token_account: TokenAccountState { amount: 0, ..ctx.seller_token_account },
        buyer_token_account: TokenAccountState {
            amount: (ctx.buyer_token_account.amount + 1) as u64,
            ..ctx.buyer_token_account
        },
        ..ctx
    }
}

/// Resell a held coupon directly to a co-present buyer: split payment and
/// holder-authorized transfer of the single unit, all-or-nothing.
pub fn handler(ctx: &mut TransferCoupon, price_lamports: u64) -> (r: Result<(), CouponError>)
    requires
        old(ctx).wf(),
    ensures
        final(ctx).wf(),
        r is Ok <==> transfer_allowed(*old(ctx), price_lamports),
        r is Ok ==> *final(ctx) == transfer_apply(*old(ctx), price_lamports),
        r is Err ==> *final(ctx) == *old(ctx),
        (r matches Err(e) ==> e == transfer_error(*old(ctx), price_lamports)),
{
    if ctx.seller_token_account.amount != 1 {
        return Err(CouponError::InvalidNFTAmount);
    }
    if price_lamports == 0 {
        return Err(CouponError::InvalidPrice);
    }
    match pay_with_fee_split(&mut ctx.buyer, &mut ctx.seller, &mut ctx.platform_wallet, price_lamports) {
        Ok(()) => {},
        Err(e) => {
            return Err(e);
        },
    }

    // Holder-authorized transfer of the single unit, seller to buyer.
    ctx.seller_token_account.amount = 0;
    ctx.buyer_token_account.amount = ctx.buyer_token_account.amount + 1;

    Ok(())
}

} // verus!
