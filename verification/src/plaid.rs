//! Addressing of the account-aggregation service.

use vstd::prelude::*;
use crate::text::join3;

verus! {

/// The base address of the service for an environment name such as
/// `sandbox` or `production`.
pub fn plaid_base_url(env: &str) -> (r: String)
    ensures
        r@ == "https://"@ + env@ + ".plaid.com"@,
{
    join3("https://", env, ".plaid.com")
}

} // verus!
