use msnchat_rs::settings::{SettingsWindows, ShowAction};

#[test]
fn closed_window_is_not_reused() {
    // After the window is closed, a subsequent request creates a new window
    // rather than reusing a dangling reference.
    let mut windows = SettingsWindows::new();
    assert_eq!(windows.show_settings_dialog(), ShowAction::CreateNew);
    windows.note_created(3);
    windows.note_closed(3);
    assert_eq!(windows.show_settings_dialog(), ShowAction::CreateNew);
    windows.note_created(4);
    assert_eq!(windows.show_settings_dialog(), ShowAction::BringToFront(4));
}

#[test]
fn closing_a_different_window_changes_nothing() {
    let mut windows = SettingsWindows::new();
    windows.note_created(3);
    windows.note_closed(9);
    assert_eq!(windows.show_settings_dialog(), ShowAction::BringToFront(3));
}

#[test]
fn closing_with_nothing_open_is_harmless() {
    let mut windows = SettingsWindows::new();
    windows.note_closed(1);
    assert_eq!(windows.show_settings_dialog(), ShowAction::CreateNew);
}
