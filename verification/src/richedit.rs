//! Redirection of the module's rich-edit control class.
//!
//! The module creates its text windows from an outdated rich-edit library.
//! Six sites are rewritten to load replacement library and class names —
//! pushed or loaded as immediate operands — and the window-creation call
//! is wrapped so the host can observe creation.

use crate::encoder::{call_rel32_bytes, make_call_rel32, mov_eax_instr, push_instr, u32_le_bytes};
use crate::plan::PatchWrite;
use crate::reloc::{adjust_spec, PatchContext};
use vstd::prelude::*;

verus! {

/// Static addresses of the two `PUSH` operands naming the rich-edit
/// library file.
pub const LIBRARY_PUSH_SITE_A: usize = 0x372249F9;

pub const LIBRARY_PUSH_SITE_B: usize = 0x37226491;

/// Static addresses of the four `MOV EAX` operands naming the rich-edit
/// window class.
pub const CLASS_MOV_SITE_A: usize = 0x37223438;

pub const CLASS_MOV_SITE_B: usize = 0x37224B43;

pub const CLASS_MOV_SITE_C: usize = 0x37225944;

pub const CLASS_MOV_SITE_D: usize = 0x37226504;

/// Static address of the window-creation call that is wrapped.
pub const CREATE_CALL_SITE: usize = 0x37224977;

/// Static address of the module's original creation routine, which the
/// wrapper forwards to.
pub const ORIGINAL_CREATE_FN: usize = 0x37223F13;

/// Runtime address of the module's original creation routine.
pub fn original_create_address(ctx: &PatchContext) -> (r: usize)
    ensures
        r == adjust_spec(ORIGINAL_CREATE_FN, ctx.spec_delta()),
{
    ctx.adjust(ORIGINAL_CREATE_FN)
}

/// Plan for this group: both library-name pushes and all four class-name
/// loads redirected to the replacement strings, then the creation call
/// wrapped by the trampoline at `trampoline`.
pub fn init(ctx: &PatchContext, file_name_ptr: u32, class_name_ptr: u32, trampoline: usize) -> (
    plan: Vec<PatchWrite>)
    ensures
        plan@.len() == 7,
        plan@[0].address == adjust_spec(LIBRARY_PUSH_SITE_A, ctx.spec_delta()),
        plan@[0].bytes@ == seq![0x68u8] + u32_le_bytes(file_name_ptr),
        plan@[1].address == adjust_spec(LIBRARY_PUSH_SITE_B, ctx.spec_delta()),
        plan@[1].bytes@ == seq![0x68u8] + u32_le_bytes(file_name_ptr),
        plan@[2].address == adjust_spec(CLASS_MOV_SITE_A, ctx.spec_delta()),
        plan@[2].bytes@ == seq![0xB8u8] + u32_le_bytes(class_name_ptr),
        plan@[3].address == adjust_spec(CLASS_MOV_SITE_B, ctx.spec_delta()),
        plan@[3].bytes@ == seq![0xB8u8] + u32_le_bytes(class_name_ptr),
        plan@[4].address == adjust_spec(CLASS_MOV_SITE_C, ctx.spec_delta()),
        plan@[4].bytes@ == seq![0xB8u8] + u32_le_bytes(class_name_ptr),
        plan@[5].address == adjust_spec(CLASS_MOV_SITE_D, ctx.spec_delta()),
        plan@[5].bytes@ == seq![0xB8u8] + u32_le_bytes(class_name_ptr),
        plan@[6].address == adjust_spec(CREATE_CALL_SITE, ctx.spec_delta()),
        plan@[6].bytes@ == call_rel32_bytes(plan@[6].address, trampoline),
{
    let mut plan: Vec<PatchWrite> = Vec::new();
    let a0 = ctx.adjust(LIBRARY_PUSH_SITE_A);
    plan.push(PatchWrite { address: a0, bytes: push_instr(file_name_ptr) });
    let a1 = ctx.adjust(LIBRARY_PUSH_SITE_B);
    plan.push(PatchWrite { address: a1, bytes: push_instr(file_name_ptr) });
    let a2 = ctx.adjust(CLASS_MOV_SITE_A);
    plan.push(PatchWrite { address: a2, bytes: mov_eax_instr(class_name_ptr) });
    let a3 = ctx.adjust(CLASS_MOV_SITE_B);
    plan.push(PatchWrite { address: a3, bytes: mov_eax_instr(class_name_ptr) });
    let a4 = ctx.adjust(CLASS_MOV_SITE_C);
    plan.push(PatchWrite { address: a4, bytes: mov_eax_instr(class_name_ptr) });
    let a5 = ctx.adjust(CLASS_MOV_SITE_D);
    plan.push(PatchWrite { address: a5, bytes: mov_eax_instr(class_name_ptr) });
    let a6 = ctx.adjust(CREATE_CALL_SITE);
    plan.push(PatchWrite { address: a6, bytes: make_call_rel32(a6, trampoline) });
    plan
}

} // verus!
