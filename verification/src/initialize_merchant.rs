//! Merchant registration: create the keyed record a merchant must own before
//! issuing coupons.
//!
//! One record per authority; the record starts with an empty issuance
//! counter. The only validated term is the business name's length.

use vstd::prelude::*;
use vstd::string::*;

use crate::errors::CouponError;
use crate::state::{AccountId, Merchant};

verus! {

/// Whether registration goes through: the business name fits 100 characters.
pub open spec fn initialize_allowed(business_name: Seq<char>) -> bool {
    business_name.len() <= 100
}

/// Register a merchant: returns the fresh record owned by `authority`, with
/// no coupons issued yet. Rejects a business name over 100 characters.
pub fn handler(authority: AccountId, business_name: String) -> (r: Result<Merchant, CouponError>)
    ensures
        r is Ok <==> initialize_allowed(business_name@),
        (r matches Ok(m) ==> {
            &&& m.authority == authority
            &&& m.business_name@ == business_name@
            &&& m.total_coupons_created == 0
            &&& m.wf()
        }),
        r is Err ==> r == Err::<Merchant, CouponError>(CouponError::BusinessNameTooLong),
{
    if business_name.as_str().unicode_len() > 100 {
        return Err(CouponError::BusinessNameTooLong);
    }
    Ok(Merchant { authority, business_name, total_coupons_created: 0 })
}

} // verus!
