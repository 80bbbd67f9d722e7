//! Interception of the module's version reply.
//!
//! The module answers a version query with a hardcoded product string, and
//! only when the user is an operator. Two patches change that: the
//! operator check is overwritten with no-ops so the reply is always sent,
//! and the instruction loading the reply string's address is rewritten to
//! load a replacement string carrying the host's own name and version.

use crate::encoder::{call_rel32_bytes, mov_edi_instr, u32_le_bytes};
use crate::plan::PatchWrite;
use crate::reloc::{adjust_spec, PatchContext};
use vstd::prelude::*;

verus! {

/// Static address of the operator check guarding the version reply.
pub const OPER_CHECK_ADDR: usize = 0x3722E83B;

/// Static address of the instruction loading the reply string's address.
pub const VERSION_REPLY_ADDR: usize = 0x3722E85B;

/// The four no-op bytes written over the operator check.
pub open spec fn nop4_bytes() -> Seq<u8> {
    seq![0x90u8, 0x90, 0x90, 0x90]
}

/// The reply text for a host name and version: `name vVERSION - IRC8` with
/// a terminating zero. The trailing protocol tag matches what the string
/// being replaced ended with, which the module's surrounding code still
/// parses.
pub open spec fn version_reply_spec(name: Seq<u8>, version: Seq<u8>) -> Seq<u8> {
    name + seq![0x20u8, 0x76] + version + seq![0x20u8, 0x2D, 0x20, 0x49, 0x52, 0x43, 0x38, 0x00]
}

/// Builds the replacement version-reply string.
pub fn version_reply_bytes(name: &Vec<u8>, version: &Vec<u8>) -> (r: Vec<u8>)
    ensures
        r@ == version_reply_spec(name@, version@),
{
    let mut r: Vec<u8> = Vec::new();
    let mut i: usize = 0;
    while i < name.len()
        invariant
            i <= name@.len(),
            r@ == name@.take(i as int),
        decreases name@.len() - i,
    {
        r.push(name[i]);
        proof {
            assert(r@ =~= name@.take(i + 1));
        }
        i = i + 1;
    }
    proof {
        assert(name@.take(name@.len() as int) =~= name@);
    }
    r.push(0x20);
    r.push(0x76);
    let mut j: usize = 0;
    while j < version.len()
        invariant
            j <= version@.len(),
            r@ == name@ + seq![0x20u8, 0x76] + version@.take(j as int),
        decreases version@.len() - j,
    {
        r.push(version[j]);
        proof {
            assert(r@ =~= name@ + seq![0x20u8, 0x76] + version@.take(j + 1));
        }
        j = j + 1;
    }
    proof {
        assert(version@.take(version@.len() as int) =~= version@);
    }
    r.push(0x20);
    r.push(0x2D);
    r.push(0x20);
    r.push(0x49);
    r.push(0x52);
    r.push(0x43);
    r.push(0x38);
    r.push(0x00);
    proof {
        assert(r@ =~= version_reply_spec(name@, version@));
    }
    r
}

/// Patch that disables the operator check: the version reply is then sent
/// whether or not the user is an operator.
pub fn disable_oper_check(ctx: &PatchContext) -> (p: PatchWrite)
    ensures
        p.address == adjust_spec(OPER_CHECK_ADDR, ctx.spec_delta()),
        p.bytes@ == nop4_bytes(),
{
    let address = ctx.adjust(OPER_CHECK_ADDR);
    let bytes = vec![0x90u8, 0x90, 0x90, 0x90];
    proof {
        assert(bytes@ =~= nop4_bytes());
    }
    PatchWrite { address, bytes }
}

/// Patch that redirects the reply-string load to the replacement string at
/// `reply_ptr`, which must stay alive for the process's lifetime.
pub fn patch_version_reply(ctx: &PatchContext, reply_ptr: u32) -> (p: PatchWrite)
    ensures
        p.address == adjust_spec(VERSION_REPLY_ADDR, ctx.spec_delta()),
        p.bytes@ == seq![0xBFu8] + u32_le_bytes(reply_ptr),
{
    let address = ctx.adjust(VERSION_REPLY_ADDR);
    let bytes = mov_edi_instr(reply_ptr);
    PatchWrite { address, bytes }
}

/// Plan for this group: the operator check disabled, then the reply string
/// redirected.
pub fn init(ctx: &PatchContext, reply_ptr: u32) -> (plan: Vec<PatchWrite>)
    ensures
        plan@.len() == 2,
        plan@[0].address == adjust_spec(OPER_CHECK_ADDR, ctx.spec_delta()),
        plan@[0].bytes@ == nop4_bytes(),
        plan@[1].address == adjust_spec(VERSION_REPLY_ADDR, ctx.spec_delta()),
        plan@[1].bytes@ == seq![0xBFu8] + u32_le_bytes(reply_ptr),
{
    let mut plan: Vec<PatchWrite> = Vec::new();
    plan.push(disable_oper_check(ctx));
    plan.push(patch_version_reply(ctx, reply_ptr));
    plan
}

} // verus!
