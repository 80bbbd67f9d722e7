//! Interception of the chat input's command handler.
//!
//! The hook receives every command line typed into the chat control. A
//! small fixed set of tokens, compared case-insensitively, is handled
//! locally; everything else is forwarded unchanged to the module's original
//! handler. The hook's boolean return follows the original's convention:
//! `false` tells the control to clear the edit box, `true` leaves it.

use crate::encoder::{call_rel32_bytes, make_call_rel32};
use crate::plan::PatchWrite;
use crate::reloc::{adjust_spec, PatchContext};
use crate::utf16::{encode_utf16, units_equal, utf16_of};
use vstd::prelude::*;

verus! {

/// Static address of the call instruction rewritten to enter the hook.
pub const COMMAND_DISPATCH_CALL: usize = 0x3721C0E8;

/// Static address of the module's original command handler, used for
/// forwarded commands.
pub const ORIGINAL_COMMAND_HANDLER: usize = 0x37218743;

/// Static address of the display list's add-line routine, used by the
/// fake-kick notice.
pub const CHAT_HISTORY_ADD: usize = 0x372246F4;

/// Static address of the rich-edit write-line routine, used by the test
/// pattern.
pub const RICHEDIT_WRITELINE: usize = 0x3722402B;

/// Offset, in 16-bit units from the handler's object pointer, of the
/// display list the local actions write into.
pub const DISPLAY_LIST_OFFSET_WORDS: usize = 9200;

/// What the hook does with one command line.
#[derive(Clone, Copy, Debug, PartialEq, Eq, Structural)]
pub enum CommandAction {
    /// Show the about dialog.
    ShowAboutDialog,
    /// Write the fake kick notice into the display list.
    FakeKickNotice,
    /// Open (or raise) the settings window.
    OpenSettingsDialog,
    /// Write the test pattern into the display list.
    ShowTestPattern,
    /// Hand the line unchanged to the module's original handler.
    ForwardToOriginal,
}

/// One UTF-16 unit lowered ASCII-case-insensitively; units outside `A`-`Z`
/// are unchanged.
pub open spec fn ascii_lower_unit(u: u16) -> u16 {
    if 0x41 <= u <= 0x5A {
        (u + 0x20) as u16
    } else {
        u
    }
}

/// A wide string lowered unit by unit.
pub open spec fn lower16(s: Seq<u16>) -> Seq<u16> {
    s.map_values(|u: u16| ascii_lower_unit(u))
}

/// The action for one command line: the recognized tokens, compared after
/// ASCII lowering, each select their local action; every other line is
/// forwarded.
pub open spec fn classify_spec(cmd: Seq<u16>) -> CommandAction {
    let low = lower16(cmd);
    if low == utf16_of("/jd"@) {
        CommandAction::ShowAboutDialog
    } else if low == utf16_of("/ravi"@) {
        CommandAction::FakeKickNotice
    } else if low == utf16_of("/options"@) {
        CommandAction::OpenSettingsDialog
    } else if low == utf16_of("/test"@) {
        CommandAction::ShowTestPattern
    } else {
        CommandAction::ForwardToOriginal
    }
}

/// Lowers a wide string ASCII-case-insensitively.
fn to_lower_units(cmd: &Vec<u16>) -> (r: Vec<u16>)
    ensures
        r@ == lower16(cmd@),
{
    let mut r: Vec<u16> = Vec::new();
    let mut i: usize = 0;
    while i < cmd.len()
        invariant
            i <= cmd@.len(),
            r@.len() == i,
            forall|j: int| 0 <= j < i ==> r@[j] == ascii_lower_unit(cmd@[j]),
        decreases cmd@.len() - i,
    {
        let u = cmd[i];
        if 0x41 <= u && u <= 0x5A {
            r.push(u + 0x20);
        } else {
            r.push(u);
        }
        i = i + 1;
    }
    proof {
        assert(r@ =~= lower16(cmd@));
    }
    r
}

/// Classifies one command line, exactly as `classify_spec` states.
pub fn classify_command(cmd: &Vec<u16>) -> (a: CommandAction)
    ensures
        a == classify_spec(cmd@),
{
    let low = to_lower_units(cmd);
    if units_equal(&low, &encode_utf16("/jd")) {
        CommandAction::ShowAboutDialog
    } else if units_equal(&low, &encode_utf16("/ravi")) {
        CommandAction::FakeKickNotice
    } else if units_equal(&low, &encode_utf16("/options")) {
        CommandAction::OpenSettingsDialog
    } else if units_equal(&low, &encode_utf16("/test")) {
        CommandAction::ShowTestPattern
    } else {
        CommandAction::ForwardToOriginal
    }
}

/// What the hook returns for an action: `false` asks the control to clear
/// the edit box. The locally handled commands clear it, except the settings
/// window, which must leave focus where it is; a forwarded command returns
/// exactly what the original handler returned.
pub open spec fn hook_return_spec(action: CommandAction, forwarded: bool) -> bool {
    match action {
        CommandAction::ShowAboutDialog => false,
        CommandAction::FakeKickNotice => false,
        CommandAction::OpenSettingsDialog => true,
        CommandAction::ShowTestPattern => false,
        CommandAction::ForwardToOriginal => forwarded,
    }
}

/// The hook's return value for an action, exactly as `hook_return_spec`
/// states.
pub fn hook_return_value(action: CommandAction, forwarded: bool) -> (r: bool)
    ensures
        r == hook_return_spec(action, forwarded),
{
    match action {
        CommandAction::ShowAboutDialog => false,
        CommandAction::FakeKickNotice => false,
        CommandAction::OpenSettingsDialog => true,
        CommandAction::ShowTestPattern => false,
        CommandAction::ForwardToOriginal => forwarded,
    }
}

/// An unrecognized command passes through untouched: it is classified as
/// forwarded, and the hook's return value is exactly what the module's
/// original handler returned.
pub proof fn lemma_unrecognized_command_passes_through(cmd: Seq<u16>, forwarded: bool)
    requires
        classify_spec(cmd) == CommandAction::ForwardToOriginal,
    ensures
        hook_return_spec(classify_spec(cmd), forwarded) == forwarded,
{
}

/// Plan for this group: rewrite the dispatch call site into a call of the
/// hook at `handler`.
pub fn init(ctx: &PatchContext, handler: usize) -> (p: PatchWrite)
    ensures
        p.address == adjust_spec(COMMAND_DISPATCH_CALL, ctx.spec_delta()),
        p.bytes@ == call_rel32_bytes(p.address, handler),
{
    let address = ctx.adjust(COMMAND_DISPATCH_CALL);
    let bytes = make_call_rel32(address, handler);
    PatchWrite { address, bytes }
}

/// Runtime address of the module's original command handler.
pub fn original_handler_address(ctx: &PatchContext) -> (r: usize)
    ensures
        r == adjust_spec(ORIGINAL_COMMAND_HANDLER, ctx.spec_delta()),
{
    ctx.adjust(ORIGINAL_COMMAND_HANDLER)
}

/// Runtime address of the display list's add-line routine.
pub fn chat_history_add_address(ctx: &PatchContext) -> (r: usize)
    ensures
        r == adjust_spec(CHAT_HISTORY_ADD, ctx.spec_delta()),
{
    ctx.adjust(CHAT_HISTORY_ADD)
}

/// Runtime address of the rich-edit write-line routine.
pub fn richedit_writeline_address(ctx: &PatchContext) -> (r: usize)
    ensures
        r == adjust_spec(RICHEDIT_WRITELINE, ctx.spec_delta()),
{
    ctx.adjust(RICHEDIT_WRITELINE)
}

} // verus!
