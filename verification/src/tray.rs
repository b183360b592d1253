//! What the tray menu shows and what its entries do. Drawing the menu is
//! left to the program around the library.

use vstd::prelude::*;

verus! {

/// One entry of the tray menu.
#[derive(Debug, Clone, PartialEq, Eq)]
pub struct MenuEntry {
    pub id: String,
    pub label: String,
    pub enabled: bool,
}

/// What a [`MenuEntry`] means.
pub struct MenuEntryView {
    pub id: Seq<char>,
    pub label: Seq<char>,
    pub enabled: bool,
}

impl View for MenuEntry {
    type V = MenuEntryView;

    open spec fn view(&self) -> MenuEntryView {
        MenuEntryView { id: self.id@, label: self.label@, enabled: self.enabled }
    }
}

/// What a list of entries means, in order.
pub open spec fn entries_of(entries: Seq<MenuEntry>) -> Seq<MenuEntryView> {
    entries.map_values(|e: MenuEntry| e@)
}

/// The line that tells whether the capture runs.
pub open spec fn status_label(is_running: bool) -> Seq<char> {
    if is_running {
        "Logging Status: ✅ Monitoring"@
    } else {
        "Logging Status: ❌ Stopped"@
    }
}

/// The label of the entry that toggles the capture.
pub open spec fn toggle_label(is_running: bool) -> Seq<char> {
    if is_running {
        "Stop Monitoring"@
    } else {
        "Start Monitoring"@
    }
}

/// The tray menu: the status, which cannot be chosen, then the entries to
/// toggle the capture, to show the window and to quit.
pub open spec fn tray_menu_of(is_running: bool) -> Seq<MenuEntryView> {
    seq![
        MenuEntryView { id: "status"@, label: status_label(is_running), enabled: false },
        MenuEntryView { id: "toggle"@, label: toggle_label(is_running), enabled: true },
        MenuEntryView { id: "show"@, label: "Show App"@, enabled: true },
        MenuEntryView { id: "quit"@, label: "Quit"@, enabled: true },
    ]
}

/// The entries of the tray menu for a capture that runs or does not.
pub fn tray_menu(is_running: bool) -> (entries: Vec<MenuEntry>)
    ensures
        entries_of(entries@) == tray_menu_of(is_running),
{
    let status = if is_running {
        "Logging Status: ✅ Monitoring"
    } else {
        "Logging Status: ❌ Stopped"
    };
    let toggle = if is_running {
        "Stop Monitoring"
    } else {
        "Start Monitoring"
    };
    let mut entries: Vec<MenuEntry> = Vec::new();
    entries.push(
        MenuEntry {
            id: String::from_str("status"),
            label: String::from_str(status),
            enabled: false,
        },
    );
    entries.push(
        MenuEntry {
            id: String::from_str("toggle"),
            label: String::from_str(toggle),
            enabled: true,
        },
    );
    entries.push(
        MenuEntry {
            id: String::from_str("show"),
            label: String::from_str("Show App"),
            enabled: true,
        },
    );
    entries.push(
        MenuEntry { id: String::from_str("quit"), label: String::from_str("Quit"), enabled: true },
    );
    entries
}

/// What choosing an entry of the tray menu asks for.
#[derive(Debug, Clone, Copy, PartialEq, Eq)]
pub enum MenuAction {
    /// Stop the capture and leave the program.
    Quit,
    /// Toggle the capture and draw the menu anew.
    Toggle,
    /// Bring the window to the front.
    Show,
    /// Nothing: the entry has no action.
    Nothing,
}

/// The action of the entry with the id `id`.
pub open spec fn menu_action_of(id: Seq<char>) -> MenuAction {
    if id == "quit"@ {
        MenuAction::Quit
    } else if id == "toggle"@ {
        MenuAction::Toggle
    } else if id == "show"@ {
        MenuAction::Show
    } else {
        MenuAction::Nothing
    }
}

/// The action of the entry with the id `id`.
pub fn menu_action(id: &str) -> (action: MenuAction)
    ensures
        action == menu_action_of(id@),
{
    let chosen = String::from_str(id);
    if chosen == String::from_str("quit") {
        MenuAction::Quit
    } else if chosen == String::from_str("toggle") {
        MenuAction::Toggle
    } else if chosen == String::from_str("show") {
        MenuAction::Show
    } else {
        MenuAction::Nothing
    }
}

} // verus!
