//! Interception of the nickname list's context menu.
//!
//! The module dispatches every context-menu choice through a handler
//! pointer kept in a data slot; that pointer is overwritten so the choices
//! above the module's own range can be handled here. The stock choices are
//! forwarded to the module's default handler; the added owner-mode choice
//! applies a channel mode to each selected user.

use crate::encoder::{u32_le_bytes, u32_to_le_bytes};
use crate::plan::PatchWrite;
use crate::reloc::{adjust_spec, PatchContext};
use vstd::prelude::*;

verus! {

/// Static address of the data slot holding the menu handler pointer.
pub const NICKLIST_MENU_POINTER: usize = 0x37201E5C;

/// Static address of the module's default menu handler.
pub const DEFAULT_MENU_HANDLER: usize = 0x3721CE64;

/// Static address of the module's set-channel-user-mode routine.
pub const SET_CHANNEL_USER_MODE: usize = 0x3722CEDF;

/// The highest menu identifier the module handles itself.
pub const LAST_STOCK_MENU_ITEM: i32 = 13011;

/// The added menu identifier that grants owner mode.
pub const OWNER_MENU_ITEM: i32 = 13012;

/// Offset, in bytes from a list node, of the pointer to the user's name.
pub const NAME_OFFSET: usize = 12;

/// Offset, in bytes from the menu handler's first argument, of the list
/// control the selection is read from.
pub const LIST_CONTROL_OFFSET: usize = 16904;

/// Offset, in bytes from the list control's vtable-like block, of its
/// get-selected-items routine.
pub const GET_SELECTED_ITEMS_OFFSET: usize = 56;

/// What the menu hook does with one menu choice.
#[derive(Clone, Copy, Debug, PartialEq, Eq, Structural)]
pub enum NicklistAction {
    /// A stock choice: hand it to the module's default handler.
    ForwardToDefault,
    /// The added choice: grant owner mode to the selected users.
    SetOwnerMode,
    /// An added identifier nothing is bound to: do nothing.
    Ignore,
}

/// Classifies one menu choice: everything up to the module's own range is
/// forwarded; the owner-mode identifier is handled here; any other added
/// identifier is ignored.
pub fn nicklist_action(menu_item: i32) -> (a: NicklistAction)
    ensures
        a == (if menu_item <= LAST_STOCK_MENU_ITEM {
            NicklistAction::ForwardToDefault
        } else if menu_item == OWNER_MENU_ITEM {
            NicklistAction::SetOwnerMode
        } else {
            NicklistAction::Ignore
        }),
{
    if menu_item <= LAST_STOCK_MENU_ITEM {
        NicklistAction::ForwardToDefault
    } else if menu_item == OWNER_MENU_ITEM {
        NicklistAction::SetOwnerMode
    } else {
        NicklistAction::Ignore
    }
}

/// Runtime address of the module's default menu handler.
pub fn default_menu_handler_address(ctx: &PatchContext) -> (r: usize)
    ensures
        r == adjust_spec(DEFAULT_MENU_HANDLER, ctx.spec_delta()),
{
    ctx.adjust(DEFAULT_MENU_HANDLER)
}

/// Runtime address of the module's set-channel-user-mode routine.
pub fn set_channel_user_mode_address(ctx: &PatchContext) -> (r: usize)
    ensures
        r == adjust_spec(SET_CHANNEL_USER_MODE, ctx.spec_delta()),
{
    ctx.adjust(SET_CHANNEL_USER_MODE)
}

/// Plan for this group: overwrite the handler-pointer slot with the
/// address of the hook at `handler`. This is a data write — four
/// little-endian pointer bytes, no opcode.
pub fn init(ctx: &PatchContext, handler: u32) -> (p: PatchWrite)
    ensures
        p.address == adjust_spec(NICKLIST_MENU_POINTER, ctx.spec_delta()),
        p.bytes@ == u32_le_bytes(handler),
{
    let address = ctx.adjust(NICKLIST_MENU_POINTER);
    let bytes = u32_to_le_bytes(handler);
    PatchWrite { address, bytes }
}

} // verus!
