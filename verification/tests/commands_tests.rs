use msnchat_rs::commands::{classify_command, hook_return_value, CommandAction};
use msnchat_rs::settings::{SettingsWindows, ShowAction};

fn wide(s: &str) -> Vec<u16> {
    s.encode_utf16().collect()
}

#[test]
fn jd_triggers_about_dialog_and_clears_input() {
    let action = classify_command(&wide("/jd"));
    assert_eq!(action, CommandAction::ShowAboutDialog);
    // false tells the control to clear the edit box
    assert_eq!(hook_return_value(action, true), false);
}

#[test]
fn jd_is_case_insensitive() {
    assert_eq!(classify_command(&wide("/JD")), CommandAction::ShowAboutDialog);
    assert_eq!(classify_command(&wide("/Jd")), CommandAction::ShowAboutDialog);
    assert_eq!(classify_command(&wide("/jD")), CommandAction::ShowAboutDialog);
}

#[test]
fn unknown_command_forwards_and_returns_what_the_fallback_returns() {
    let action = classify_command(&wide("/unknowncmd"));
    assert_eq!(action, CommandAction::ForwardToOriginal);
    assert_eq!(hook_return_value(action, true), true);
    assert_eq!(hook_return_value(action, false), false);
}

#[test]
fn other_recognized_commands() {
    assert_eq!(classify_command(&wide("/ravi")), CommandAction::FakeKickNotice);
    assert_eq!(classify_command(&wide("/RAVI")), CommandAction::FakeKickNotice);
    assert_eq!(classify_command(&wide("/options")), CommandAction::OpenSettingsDialog);
    assert_eq!(classify_command(&wide("/OPTIONS")), CommandAction::OpenSettingsDialog);
    assert_eq!(classify_command(&wide("/test")), CommandAction::ShowTestPattern);
}

#[test]
fn options_leaves_the_edit_box_alone() {
    assert_eq!(hook_return_value(CommandAction::OpenSettingsDialog, false), true);
}

#[test]
fn near_misses_are_forwarded() {
    assert_eq!(classify_command(&wide("/jd ")), CommandAction::ForwardToOriginal);
    assert_eq!(classify_command(&wide("jd")), CommandAction::ForwardToOriginal);
    assert_eq!(classify_command(&wide("")), CommandAction::ForwardToOriginal);
    assert_eq!(classify_command(&wide("/jdx")), CommandAction::ForwardToOriginal);
}

#[test]
fn options_twice_opens_exactly_one_window() {
    // Second invocation brings the existing window forward rather than
    // creating a duplicate.
    let mut windows = SettingsWindows::new();
    assert_eq!(windows.show_settings_dialog(), ShowAction::CreateNew);
    windows.note_created(7);
    assert_eq!(windows.show_settings_dialog(), ShowAction::BringToFront(7));
    assert_eq!(windows.show_settings_dialog(), ShowAction::BringToFront(7));
}
