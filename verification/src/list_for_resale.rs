//! Listing protocol: park a held coupon in the seller's resale escrow.
//!
//! The seller transfers their single unit into the resale escrow derived from
//! (asset, seller). Custody then rests with the program, so any later buyer
//! can complete the trade without the seller being present.

use vstd::prelude::*;

use crate::errors::ListingError;
use crate::state::{AccountId, TokenAccountState};

verus! {

/// Snapshot of the accounts touched by a listing.
pub struct ListForResale {
    /// The asset being listed.
    pub nft_mint_key: AccountId,
    /// The seller's holding account, which must contain the single unit.
    pub seller_token_account: TokenAccountState,
    /// The resale escrow derived from (asset, seller); self-authoritative.
    pub resale_escrow: TokenAccountState,
    /// Address of the resale escrow, which is also its own signing authority.
    pub resale_escrow_key: AccountId,
    /// The seller's wallet identity.
    pub seller_key: AccountId,
}

impl ListForResale {
    /// Account wiring and custody invariant: both holding accounts are
    /// accounts of the listed asset, the seller's account is the seller's
    /// own, the escrow is its own authority, and at most one unit of the
    /// asset is in view.
    pub open spec fn wf(self) -> bool {
        &&& self.seller_token_account.mint == self.nft_mint_key
        &&& self.seller_token_account.owner == self.seller_key
        &&& self.resale_escrow.mint == self.nft_mint_key
        &&& self.resale_escrow.owner == self.resale_escrow_key
        &&& self.seller_token_account.amount + self.resale_escrow.amount <= 1
    }
}

/// Whether a listing goes through: the seller holds exactly the single unit.
pub open spec fn list_allowed(ctx: ListForResale) -> bool {
    ctx.seller_token_account.amount == 1
}

/// The account snapshot after a successful listing: the unit has moved from
/// the seller into the resale escrow.
pub open spec fn list_apply(ctx: ListForResale) -> ListForResale {
    ListForResale {
        seller_token_account: TokenAccountState { amount: 0, ..ctx.seller_token_account },
        resale_escrow: TokenAccountState {
            amount: (ctx.resale_escrow.amount + 1) as u64,
            ..ctx.resale_escrow
        },
        ..ctx
    }
}

/// List a held coupon for resale: holder-authorized transfer of the single
/// unit into the seller's resale escrow. All-or-nothing: on error no account
/// changes.
pub fn handler(ctx: &mut ListForResale) -> (r: Result<(), ListingError>)
    requires
        old(ctx).wf(),
    ensures
        final(ctx).wf(),
        r is Ok <==> list_allowed(*old(ctx)),
        r is Ok ==> *final(ctx) == list_apply(*old(ctx)),
        r is Ok ==> final(ctx).resale_escrow.amount == 1,
        r is Err ==> *final(ctx) == *old(ctx)
            && r == Err::<(), ListingError>(ListingError::SellerDoesNotOwnNFT),
{
    if ctx.seller_token_account.amount != 1 {
        return Err(ListingError::SellerDoesNotOwnNFT);
    }

    // Holder-authorized transfer of the single unit into the resale escrow.
    ctx.seller_token_account.amount = 0;
    ctx.resale_escrow.amount = ctx.resale_escrow.amount + 1;

    Ok(())
}

} // verus!
