use msnchat_rs::commands_version::{version_command_text, version_command_version};
use msnchat_rs::ctcp_version::{disable_oper_check, patch_version_reply, version_reply_bytes};
use msnchat_rs::domains::{check_buggy_tld_is_allowed, is_allowed_domain};
use msnchat_rs::gatekeeper::needs_new_gatekeeper_id;
use msnchat_rs::hacks::init_hacks;
use msnchat_rs::nicklist::{nicklist_action, NicklistAction};
use msnchat_rs::reloc::PatchContext;
use msnchat_rs::resdll::get_cache_folder;
use msnchat_rs::startup::apply_patches;
use msnchat_rs::utf16::{encode_utf16z, string_to_wstr_vec};
use msnchat_rs::{ctcp_version, gatekeeper, navigate, nicklist, resdll, richedit};

#[test]
fn utf16_encoding_with_terminator() {
    assert_eq!(encode_utf16z("abc"), vec![0x61, 0x62, 0x63, 0]);
    assert_eq!(encode_utf16z(""), vec![0]);
    // a character outside the basic plane becomes a surrogate pair
    assert_eq!(encode_utf16z("\u{1F600}"), vec![0xD83D, 0xDE00, 0]);
    assert_eq!(string_to_wstr_vec(&String::from("hi")), vec![0x68, 0x69, 0]);
}

#[test]
fn gatekeeper_zeroed_guid_needs_a_new_one() {
    assert!(needs_new_gatekeeper_id(&vec![0u8; 16]));
    let mut id = vec![0u8; 16];
    id[9] = 1;
    assert!(!needs_new_gatekeeper_id(&id));
}

#[test]
fn gatekeeper_plan() {
    let ctx = PatchContext::new(0x37200000);
    let p = gatekeeper::init(&ctx, 0x00401000);
    assert_eq!(p.address, 0x3721A9BE);
    assert_eq!(p.bytes[0], 0xE8);
    assert_eq!(gatekeeper::guid_store_address(&ctx), 0x3723050D);
}

#[test]
fn nicklist_menu_choices() {
    assert_eq!(nicklist_action(1), NicklistAction::ForwardToDefault);
    assert_eq!(nicklist_action(13011), NicklistAction::ForwardToDefault);
    assert_eq!(nicklist_action(13012), NicklistAction::SetOwnerMode);
    assert_eq!(nicklist_action(13013), NicklistAction::Ignore);
}

#[test]
fn nicklist_plan_is_a_pointer_write() {
    let ctx = PatchContext::new(0x37200000);
    let p = nicklist::init(&ctx, 0x00401000);
    assert_eq!(p.address, 0x37201E5C);
    assert_eq!(p.bytes, vec![0x00, 0x10, 0x40, 0x00]);
}

#[test]
fn domains_always_approve() {
    assert!(is_allowed_domain(&b"example.com".to_vec()));
    assert_eq!(check_buggy_tld_is_allowed(&b"example.com".to_vec()), 1);
}

#[test]
fn cache_folder_appended_over_trailing_separator() {
    // buffer holds "C:\Temp\" (8 bytes) followed by room
    let mut buf = vec![0u8; 64];
    buf[..8].copy_from_slice(b"C:\\Temp\\");
    assert!(get_cache_folder(&mut buf, 8));
    assert_eq!(&buf[..26], b"C:\\Temp\\msnchat-rs.cache\\\0");
}

#[test]
fn cache_folder_needs_room() {
    let mut buf = vec![7u8; 20];
    let before = buf.clone();
    assert!(!get_cache_folder(&mut buf, 8)); // 8 + 19 >= 20
    assert_eq!(buf, before);
}

#[test]
fn resdll_plan_rewrites_both_call_sites() {
    let ctx = PatchContext::new(0x37200000);
    let plan = resdll::init(&ctx, 0x00401000, 0x00402000);
    assert_eq!(plan.len(), 2);
    assert_eq!(plan[0].address, 0x372147F3);
    assert_eq!(plan[1].address, 0x3721481E);
    assert_eq!(plan[0].bytes[0], 0xE8);
    assert_eq!(plan[1].bytes[0], 0xE8);
}

#[test]
fn ctcp_version_reply_text() {
    let r = version_reply_bytes(&b"msnchat-rs".to_vec(), &b"0.1.0".to_vec());
    assert_eq!(r, b"msnchat-rs v0.1.0 - IRC8\0".to_vec());
}

#[test]
fn ctcp_plan_disables_oper_check_and_redirects_reply() {
    let ctx = PatchContext::new(0x37200000);
    let nops = disable_oper_check(&ctx);
    assert_eq!(nops.address, 0x3722E83B);
    assert_eq!(nops.bytes, vec![0x90, 0x90, 0x90, 0x90]);
    let reply = patch_version_reply(&ctx, 0x00401000);
    assert_eq!(reply.address, 0x3722E85B);
    assert_eq!(reply.bytes, vec![0xBF, 0x00, 0x10, 0x40, 0x00]);
    let plan = ctcp_version::init(&ctx, 0x00401000);
    assert_eq!(plan.len(), 2);
}

#[test]
fn version_command_replacement_texts() {
    let text = version_command_text("msnchat-rs");
    let expected: Vec<u16> = "msnchat-rs v".encode_utf16().chain(std::iter::once(0)).collect();
    assert_eq!(text, expected);
    assert_eq!(version_command_version(&b"0.1.0".to_vec()), b"0.1.0\0".to_vec());
}

#[test]
fn hacks_group_installs_nothing() {
    assert!(init_hacks().is_empty());
}

#[test]
fn startup_plan_rewrites_dispatch_and_version_operands() {
    let ctx = PatchContext::new(0x37200000);
    let plan = apply_patches(&ctx, 0x00401000, 0x00500000, 0x00600000);
    assert_eq!(plan.len(), 3);
    assert_eq!(plan[0].address, 0x3721C0E8);
    assert_eq!(plan[0].bytes[0], 0xE8);
    assert_eq!(plan[1].address, 0x37218A07);
    assert_eq!(plan[1].bytes, vec![0x00, 0x00, 0x50, 0x00]);
    assert_eq!(plan[2].address, 0x37218A15);
    assert_eq!(plan[2].bytes, vec![0x00, 0x00, 0x60, 0x00]);
}

#[test]
fn richedit_plan_rewrites_all_seven_sites() {
    let ctx = PatchContext::new(0x37200000);
    let plan = richedit::init(&ctx, 0x00501000, 0x00502000, 0x00401000);
    assert_eq!(plan.len(), 7);
    assert_eq!(plan[0].address, 0x372249F9);
    assert_eq!(plan[0].bytes[0], 0x68);
    assert_eq!(plan[2].address, 0x37223438);
    assert_eq!(plan[2].bytes[0], 0xB8);
    assert_eq!(plan[6].address, 0x37224977);
    assert_eq!(plan[6].bytes[0], 0xE8);
    assert_eq!(richedit::original_create_address(&ctx), 0x37223F13);
}

#[test]
fn navigate_plan_is_a_jump() {
    let ctx = PatchContext::new(0x37200000);
    let p = navigate::init(&ctx, 0x00401000);
    assert_eq!(p.address, 0x3721783C);
    assert_eq!(p.bytes[0], 0xE9);
}
