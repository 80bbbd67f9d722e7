//! The module's domain allow-list checks, answered permissively.
//!
//! The module only trusts a few hardcoded domains and asks its host about
//! everything else. Those services are long gone; the host now approves
//! every domain so the control keeps working against replacement servers.

use vstd::prelude::*;

verus! {

/// Called by the module to ask whether a domain is allowed. Every domain
/// is.
pub fn is_allowed_domain(_domain: &Vec<u8>) -> (r: bool)
    ensures
        r == true,
{
    true
}

/// Called by the module to ask whether an unknown top-level domain is
/// allowed; the module passes the last two labels of the domain, whatever
/// the actual top-level domain is. Answers 1 (allowed) for every input.
pub fn check_buggy_tld_is_allowed(_buggy_tld: &Vec<u8>) -> (r: i32)
    ensures
        r == 1,
{
    1
}

} // verus!
