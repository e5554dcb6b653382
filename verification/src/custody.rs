//! Custody derivation: program-exclusive holding-account identities.
//!
//! An escrow's identity is derived deterministically from a fixed, labelled
//! tuple of identity seeds. Identical seeds always yield the identical
//! identity and bump proof, so the program — and only the program — can later
//! reproduce the signing authority for an escrow by re-supplying the same
//! seeds. Two derivation families are used: the issuance escrow, from
//! (merchant, asset), and the resale escrow, from (asset, seller).

use vstd::prelude::*;

verus! {

/// What the derivation primitive returns for a labelled seed tuple under a
/// given program identity: the derived account identity with its bump proof,
/// or nothing when no valid proof exists in the bounded search space. A pure
/// function of its arguments: the same seeds always derive the same identity.
pub uninterp spec fn custody_address(label: Seq<char>, seed_a: Seq<u8>, seed_b: Seq<u8>, program_id: Seq<u8>) -> Option<(Seq<u8>, u8)>;

/// Whether a derivation outcome is exactly what `custody_address` names:
/// found with the named 32-byte identity and bump, or not found together.
pub open spec fn derivation_matches(r: Option<(Vec<u8>, u8)>, d: Option<(Seq<u8>, u8)>) -> bool {
    match (r, d) {
        (Some(found), Some(named)) => {
            &&& found.0@ == named.0
            &&& found.1 == named.1
            &&& found.0@.len() == 32
        },
        (None, None) => true,
        _ => false,
    }
}

/// Relies on Pubkey::try_find_program_address: the derived address is a pure
/// function of the seed slices and the program identity alone, and a derived
/// Pubkey is exactly 32 bytes.
#[verifier::external_body]
fn find_custody_address(
    label: &str,
    seed_a: &Vec<u8>,
    seed_b: &Vec<u8>,
    program_id: &Vec<u8>,
) -> (r: Option<(Vec<u8>, u8)>)
    requires
        program_id@.len() == 32,
    ensures
        derivation_matches(r, custody_address(label@, seed_a@, seed_b@, program_id@)),
{
    let pid = match anchor_lang::prelude::Pubkey::try_from(program_id.as_slice()) {
        Ok(p) => p,
        Err(_) => {
            return None;
        },
    };
    let seeds: [&[u8]; 3] = [label.as_bytes(), seed_a.as_slice(), seed_b.as_slice()];
    anchor_lang::prelude::Pubkey::try_find_program_address(&seeds, &pid)
        .map(|(address, bump)| (address.to_bytes().to_vec(), bump))
}

/// Derive the issuance escrow identity for `(merchant, asset)` under
/// `program_id`: the account that holds a freshly issued coupon's unit until
/// it is claimed or purchased.
pub fn derive_issuance_escrow(
    merchant: &Vec<u8>,
    asset: &Vec<u8>,
    program_id: &Vec<u8>,
) -> (r: Option<(Vec<u8>, u8)>)
    requires
        program_id@.len() == 32,
    ensures
        derivation_matches(r, custody_address("nft_escrow"@, merchant@, asset@, program_id@)),
{
    find_custody_address("nft_escrow", merchant, asset, program_id)
}

/// Derive the resale escrow identity for `(asset, seller)` under
/// `program_id`: the self-authoritative account that holds a listed coupon's
/// unit until a buyer releases it.
pub fn derive_resale_escrow(
    asset: &Vec<u8>,
    seller: &Vec<u8>,
    program_id: &Vec<u8>,
) -> (r: Option<(Vec<u8>, u8)>)
    requires
        program_id@.len() == 32,
    ensures
        derivation_matches(r, custody_address("resale_escrow"@, asset@, seller@, program_id@)),
{
    find_custody_address("resale_escrow", asset, seller, program_id)
}

} // verus!
