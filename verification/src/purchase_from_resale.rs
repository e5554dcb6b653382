//! Escrow-mediated resale purchase: a split payment and the release of the
//! listed unit in one atomic unit, with the seller absent.
//!
//! Custody already rests with the resale escrow, whose own derived identity is
//! its signing authority, so only the buyer signs. The buyer declares the
//! price; the program enforces the fee split on whatever is declared and
//! releases the unit. If the escrow does not hold the unit, the price is zero,
//! or a payment leg cannot land, nothing moves.

use vstd::prelude::*;

use crate::errors::CouponError;
use crate::payments::{pay_with_fee_split, payment_allowed, payment_apply, payment_error};
use crate::state::{AccountId, TokenAccountState, Wallet};

verus! {

/// Snapshot of the accounts touched by a resale purchase.
pub struct PurchaseFromResale {
    /// The asset being resold.
    pub nft_mint_key: AccountId,
    /// The resale escrow derived from (asset, seller), holding the listed unit.
    pub resale_escrow: TokenAccountState,
    /// Address of the resale escrow, which is also its own signing authority.
    pub resale_escrow_key: AccountId,
    /// The buyer's holding account for this asset.
    pub buyer_token_account: TokenAccountState,
    /// The listing seller's wallet, receiving 97.5% of the payment.
    pub seller: Wallet,
    /// The buyer's wallet, paying the declared price.
    pub buyer: Wallet,
    /// The platform's fee wallet, receiving 2.5% of the payment.
    pub platform_wallet: Wallet,
}

impl PurchaseFromResale {
    /// Account wiring and custody invariant: both holding accounts are
    /// accounts of the resold asset, the escrow is its own authority, the
    /// buyer's account is the buyer's own, at most one unit of the asset is
    /// in view, and three distinct wallets.
    pub open spec fn wf(self) -> bool {
        &&& self.resale_escrow.mint == self.nft_mint_key
        &&& self.resale_escrow.owner == self.resale_escrow_key
        &&& self.buyer_token_account.mint == self.nft_mint_key
        &&& self.buyer_token_account.owner == self.buyer.key
        &&& self.resale_escrow.amount + self.buyer_token_account.amount <= 1
        &&& self.buyer.key != self.seller.key
        &&& self.buyer.key != self.platform_wallet.key
        &&& self.seller.key != self.platform_wallet.key
    }
}

/// Whether a resale purchase goes through: the escrow holds the listed unit,
/// the declared price is positive, and the split payment can land.
pub open spec fn resale_purchase_allowed(ctx: PurchaseFromResale, price_lamports: u64) -> bool {
    &&& ctx.resale_escrow.amount == 1
    &&& price_lamports > 0
    &&& payment_allowed(ctx.buyer, ctx.seller, ctx.platform_wallet, price_lamports)
}

/// The error a rejected resale purchase reports, in the order the conditions
/// are checked.
pub open spec fn resale_purchase_error(ctx: PurchaseFromResale, price_lamports: u64) -> CouponError {
    if ctx.resale_escrow.amount != 1 {
        CouponError::InvalidNFTAmount
    } else if price_lamports == 0 {
        CouponError::InvalidPrice
    } else {
        payment_error(ctx.buyer, ctx.seller, ctx.platform_wallet, price_lamports)
    }
}

/// The account snapshot after a successful resale purchase: balances settled
/// by the fee split and the unit released from the escrow to the buyer.
pub open spec fn resale_purchase_apply(ctx: PurchaseFromResale, price_lamports: u64) -> PurchaseFromResale {
    let settled = payment_apply(ctx.buyer, ctx.seller, ctx.platform_wallet, price_lamports);
    PurchaseFromResale {
        buyer: settled.0,
        seller: settled.1,
        platform_wallet: settled.2,
        resale_escrow: TokenAccountState { amount: 0, ..ctx.resale_escrow },
        buyer_token_account: TokenAccountState {
            amount: (ctx.buyer_token_account.amount + 1) as u64,
            ..ctx.buyer_token_account
        },
        ..ctx
    }
}

/// Buy a listed coupon out of the resale escrow: split payment to the absent
/// seller and the platform, then a self-authorized release of the single unit
/// to the buyer. All-or-nothing: on error no account changes.
pub fn handler(ctx: &mut PurchaseFromResale, price_lamports: u64) -> (r: Result<(), CouponError>)
    requires
        old(ctx).wf(),
    ensures
        final(ctx).wf(),
        r is Ok <==> resale_purchase_allowed(*old(ctx), price_lamports),
        r is Ok ==> *final(ctx) == resale_purchase_apply(*old(ctx), price_lamports),
        r is Err ==> *final(ctx) == *old(ctx),
        (r matches Err(e) ==> e == resale_purchase_error(*old(ctx), price_lamports)),
{
    if ctx.resale_escrow.amount != 1 {
        return Err(CouponError::InvalidNFTAmount);
    }
    if price_lamports == 0 {
        return Err(CouponError::InvalidPrice);
    }
    match pay_with_fee_split(&mut ctx.buyer, &mut ctx.seller, &mut ctx.platform_wallet, price_lamports) {
        Ok(()) => {},
        Err(e) => {
            return Err(e);
        },
    }

    // Self-authorized release of the single unit from the resale escrow.
    ctx.resale_escrow.amount = 0;
    ctx.buyer_token_account.amount = ctx.buyer_token_account.amount + 1;

    Ok(())
}

} // verus!
