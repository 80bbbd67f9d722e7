//! Interception of the `/version` command's reply text.
//!
//! The command's reply is assembled from two string constants whose
//! addresses are embedded in the module's code as immediate operands. Both
//! operands are overwritten to point at replacement strings — the host's
//! name and its version — built here and kept alive for the process's
//! lifetime.

use crate::plan::PatchWrite;
use crate::encoder::{u32_le_bytes, u32_to_le_bytes};
use crate::reloc::{adjust_spec, PatchContext};
use crate::utf16::{encode_utf16, utf16_of};
use vstd::prelude::*;

verus! {

/// Static address of the immediate operand pointing at the command's name
/// string.
pub const VERSION_COMMAND_TEXT_PTR: usize = 0x37218A07;

/// Static address of the immediate operand pointing at the command's
/// version string.
pub const VERSION_COMMAND_VERSION_PTR: usize = 0x37218A15;

/// The replacement name text: the host's name followed by ` v`, as a
/// null-terminated wide string; the module prints the version right after
/// it.
pub fn version_command_text(name: &str) -> (r: Vec<u16>)
    ensures
        r@ == utf16_of(name@) + seq![0x20u16, 0x76, 0],
{
    let mut r = encode_utf16(name);
    r.push(0x20);
    r.push(0x76);
    r.push(0);
    proof {
        assert(r@ =~= utf16_of(name@) + seq![0x20u16, 0x76, 0]);
    }
    r
}

/// The replacement version text: the host's version with a terminating
/// zero, as narrow bytes.
pub fn version_command_version(version: &Vec<u8>) -> (r: Vec<u8>)
    ensures
        r@ == version@ + seq![0u8],
{
    let mut r: Vec<u8> = Vec::new();
    let mut i: usize = 0;
    while i < version.len()
        invariant
            i <= version@.len(),
            r@ == version@.take(i as int),
        decreases version@.len() - i,
    {
        r.push(version[i]);
        proof {
            assert(r@ =~= version@.take(i + 1));
        }
        i = i + 1;
    }
    proof {
        assert(version@.take(version@.len() as int) =~= version@);
    }
    r.push(0);
    proof {
        assert(r@ =~= version@ + seq![0u8]);
    }
    r
}

/// Patch that points the command's name operand at the replacement text at
/// `text_ptr`.
pub fn update_version_command_string(ctx: &PatchContext, text_ptr: u32) -> (p: PatchWrite)
    ensures
        p.address == adjust_spec(VERSION_COMMAND_TEXT_PTR, ctx.spec_delta()),
        p.bytes@ == u32_le_bytes(text_ptr),
{
    let address = ctx.adjust(VERSION_COMMAND_TEXT_PTR);
    let bytes = u32_to_le_bytes(text_ptr);
    PatchWrite { address, bytes }
}

/// Patch that points the command's version operand at the replacement text
/// at `version_ptr`.
pub fn update_version_command_version_string(ctx: &PatchContext, version_ptr: u32) -> (p:
    PatchWrite)
    ensures
        p.address == adjust_spec(VERSION_COMMAND_VERSION_PTR, ctx.spec_delta()),
        p.bytes@ == u32_le_bytes(version_ptr),
{
    let address = ctx.adjust(VERSION_COMMAND_VERSION_PTR);
    let bytes = u32_to_le_bytes(version_ptr);
    PatchWrite { address, bytes }
}

/// Plan for this group: both operand rewrites.
pub fn init(ctx: &PatchContext, text_ptr: u32, version_ptr: u32) -> (plan: Vec<PatchWrite>)
    ensures
        plan@.len() == 2,
        plan@[0].address == adjust_spec(VERSION_COMMAND_TEXT_PTR, ctx.spec_delta()),
        plan@[0].bytes@ == u32_le_bytes(text_ptr),
        plan@[1].address == adjust_spec(VERSION_COMMAND_VERSION_PTR, ctx.spec_delta()),
        plan@[1].bytes@ == u32_le_bytes(version_ptr),
{
    let mut plan: Vec<PatchWrite> = Vec::new();
    plan.push(update_version_command_string(ctx, text_ptr));
    plan.push(update_version_command_version_string(ctx, version_ptr));
    plan
}

} // verus!
