//! The startup patch sequence.
//!
//! Once the target module's base address is resolved, the command-dispatch
//! hook and the `/version` reply rewrites are applied together. Address
//! resolution must come first — without it no patch has a valid address
//! and everything is skipped; the host then continues unpatched.

use crate::commands;
use crate::commands_version;
use crate::encoder::{call_rel32_bytes, u32_le_bytes};
use crate::plan::PatchWrite;
use crate::reloc::{adjust_spec, PatchContext};
use vstd::prelude::*;

verus! {

/// Plan for startup: the command-dispatch call rewritten into the hook at
/// `command_handler`, then both `/version` string operands pointed at the
/// replacement texts.
pub fn apply_patches(
    ctx: &PatchContext,
    command_handler: usize,
    version_text_ptr: u32,
    version_version_ptr: u32,
) -> (plan: Vec<PatchWrite>)
    ensures
        plan@.len() == 3,
        plan@[0].address == adjust_spec(commands::COMMAND_DISPATCH_CALL, ctx.spec_delta()),
        plan@[0].bytes@ == call_rel32_bytes(plan@[0].address, command_handler),
        plan@[1].address == adjust_spec(
            commands_version::VERSION_COMMAND_TEXT_PTR,
            ctx.spec_delta(),
        ),
        plan@[1].bytes@ == u32_le_bytes(version_text_ptr),
        plan@[2].address == adjust_spec(
            commands_version::VERSION_COMMAND_VERSION_PTR,
            ctx.spec_delta(),
        ),
        plan@[2].bytes@ == u32_le_bytes(version_version_ptr),
{
    let mut plan: Vec<PatchWrite> = Vec::new();
    plan.push(commands::init(ctx, command_handler));
    let mut rest = commands_version::init(ctx, version_text_ptr, version_version_ptr);
    let second = rest.remove(0);
    plan.push(second);
    let third = rest.remove(0);
    plan.push(third);
    plan
}

} // verus!
