//! The settings window singleton.
//!
//! At most one settings window exists at a time. A show request raises the
//! existing window instead of creating a second one; once the window is
//! closed, the next request creates a fresh window rather than touching a
//! dangling reference. The host performs the actual window creation and
//! destruction and reports both back here.

use vstd::prelude::*;

verus! {

/// What the host must do for one show request.
#[derive(Clone, Copy, Debug, PartialEq, Eq, Structural)]
pub enum ShowAction {
    /// No settings window exists: create one and report it created.
    CreateNew,
    /// This window already exists: bring it to the foreground.
    BringToFront(usize),
}

/// Tracks the settings window that is currently open, by a host-chosen
/// window identifier.
#[derive(Clone, Copy, Debug, PartialEq, Eq, Structural)]
pub struct SettingsWindows {
    /// The open settings window, if any.
    pub open_window: Option<usize>,
}

/// The action a show request takes in state `s`.
pub open spec fn show_action_spec(s: SettingsWindows) -> ShowAction {
    match s.open_window {
        Some(id) => ShowAction::BringToFront(id),
        None => ShowAction::CreateNew,
    }
}

/// The state after the host reports window `id` created.
pub open spec fn note_created_spec(s: SettingsWindows, id: usize) -> SettingsWindows {
    SettingsWindows { open_window: Some(id) }
}

/// The state after the host reports window `id` closed: the tracked window
/// is forgotten only if it is the one that closed.
pub open spec fn note_closed_spec(s: SettingsWindows, id: usize) -> SettingsWindows {
    if s.open_window == Some(id) {
        SettingsWindows { open_window: None }
    } else {
        s
    }
}

impl SettingsWindows {
    /// Initial state: no settings window.
    pub fn new() -> (s: Self)
        ensures
            s.open_window is None,
    {
        SettingsWindows { open_window: None }
    }

    /// Decides a show request: raise the existing window, or have the host
    /// create one.
    pub fn show_settings_dialog(&self) -> (a: ShowAction)
        ensures
            a == show_action_spec(*self),
    {
        match self.open_window {
            Some(id) => ShowAction::BringToFront(id),
            None => ShowAction::CreateNew,
        }
    }

    /// Records the window the host created for a `CreateNew` action.
    pub fn note_created(&mut self, id: usize)
        requires
            old(self).open_window is None,
        ensures
            *final(self) == note_created_spec(*old(self), id),
    {
        self.open_window = Some(id);
    }

    /// Records that window `id` was closed. Closing a window other than the
    /// tracked one changes nothing.
    pub fn note_closed(&mut self, id: usize)
        ensures
            *final(self) == note_closed_spec(*old(self), id),
    {
        match self.open_window {
            Some(open) => {
                if open == id {
                    self.open_window = None;
                }
            },
            None => {},
        }
    }
}

/// Two show requests in a row open a single window: the first creates it,
/// and once it is recorded, the second raises that same window instead of
/// creating another.
pub proof fn lemma_show_twice_single_window(id: usize)
    ensures
        show_action_spec(SettingsWindows { open_window: None }) == ShowAction::CreateNew,
        show_action_spec(note_created_spec(SettingsWindows { open_window: None }, id))
            == ShowAction::BringToFront(id),
{
}

/// After the open window is closed, the next show request creates a new
/// window; it never raises the closed one.
pub proof fn lemma_new_window_after_close(s: SettingsWindows, id: usize)
    requires
        s.open_window == Some(id),
    ensures
        show_action_spec(note_closed_spec(s, id)) == ShowAction::CreateNew,
{
}

} // verus!
