//! The miscellaneous-patch group.
//!
//! Earlier revisions rewrote the module's user-agent and version strings
//! here; those rewrites have moved into the dedicated version groups.
//! The group remains in the startup sequence and currently installs
//! nothing.

use crate::plan::PatchWrite;
use vstd::prelude::*;

verus! {

/// Plan for this group: empty.
pub fn init_hacks() -> (plan: Vec<PatchWrite>)
    ensures
        plan@.len() == 0,
{
    Vec::new()
}

} // verus!
