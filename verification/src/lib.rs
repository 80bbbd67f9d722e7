//! Verified core of a runtime binary-patching host for a legacy 32-bit chat
//! control.
//!
//! The library contains the logic that can be checked: translating
//! static-analysis addresses to runtime addresses, encoding patch
//! instructions, a model of protected memory writes, the patch plans for each
//! feature group, and the decision logic of the interception handlers
//! (command dispatch, address parsing, socket result handling, the settings
//! window singleton). The host process around it performs the actual module
//! enumeration, memory writes, socket calls and window management, handing
//! this library plain values and acting on what it returns.

pub mod commands;
pub mod commands_version;
pub mod ctcp_version;
pub mod domains;
pub mod encoder;
pub mod gatekeeper;
pub mod hacks;
pub mod navigate;
pub mod netparse;
pub mod nicklist;
pub mod patcher;
pub mod plan;
pub mod reloc;
pub mod resdll;
pub mod richedit;
pub mod settings;
pub mod socketx;
pub mod startup;
pub mod utf16;
