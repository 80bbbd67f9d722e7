//! Interception of the authentication identifier setup.
//!
//! The module stores a gatekeeper identifier — a 16-byte GUID — into its
//! channel-server and directory-server structures. On machines where the
//! control was never registered the identifier arrives zeroed; the hook
//! detects that and has a fresh one generated before storing it through the
//! module's original routine.

use crate::encoder::{call_rel32_bytes, make_call_rel32};
use crate::plan::PatchWrite;
use crate::reloc::{adjust_spec, PatchContext};
use vstd::prelude::*;

verus! {

/// Static address of the call instruction rewritten to enter the hook.
pub const GATEKEEPER_CALL: usize = 0x3721A9BE;

/// Static address of the module's identifier-store routine, called once
/// per server structure.
pub const GUID_STORE_FN: usize = 0x3723050D;

/// Offset, in bytes from the session object, of the channel-server
/// structure the identifier is stored into.
pub const CHANNEL_SERVER_OFFSET: usize = 7272;

/// Offset, in bytes from the session object, of the directory-server
/// structure the identifier is stored into.
pub const DIRECTORY_SERVER_OFFSET: usize = 28;

/// The length of the gatekeeper identifier.
pub const GUID_LEN: usize = 16;

/// Whether an identifier is the zeroed placeholder that calls for
/// generating a fresh one.
pub fn needs_new_gatekeeper_id(id: &Vec<u8>) -> (r: bool)
    requires
        id@.len() == GUID_LEN,
    ensures
        r == (forall|i: int| 0 <= i < id@.len() ==> id@[i] == 0),
{
    let mut i: usize = 0;
    while i < id.len()
        invariant
            id@.len() == GUID_LEN,
            i <= id@.len(),
            forall|j: int| 0 <= j < i ==> id@[j] == 0,
        decreases id@.len() - i,
    {
        if id[i] != 0 {
            return false;
        }
        i = i + 1;
    }
    true
}

/// Runtime address of the module's identifier-store routine.
pub fn guid_store_address(ctx: &PatchContext) -> (r: usize)
    ensures
        r == adjust_spec(GUID_STORE_FN, ctx.spec_delta()),
{
    ctx.adjust(GUID_STORE_FN)
}

/// Plan for this group: rewrite the identifier-setup call site into a call
/// of the hook at `handler`.
pub fn init(ctx: &PatchContext, handler: usize) -> (p: PatchWrite)
    ensures
        p.address == adjust_spec(GATEKEEPER_CALL, ctx.spec_delta()),
        p.bytes@ == call_rel32_bytes(p.address, handler),
{
    let address = ctx.adjust(GATEKEEPER_CALL);
    let bytes = make_call_rel32(address, handler);
    PatchWrite { address, bytes }
}

} // verus!
