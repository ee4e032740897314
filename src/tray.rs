//! What the tray menu's items ask of the application.
use vstd::prelude::*;

verus! {

/// An action that a tray menu item stands for.
#[derive(Debug, Clone, Copy, PartialEq, Eq, Structural)]
pub enum TrayAction {
    /// Show the overlay when hidden, hide it when shown.
    ToggleVisibility,
    /// Show the overlay and open the chat panel.
    OpenChat,
    /// Show the overlay and open the settings panel.
    OpenSettings,
    /// Ask the front end to change the character.
    ChangeCharacter,
    /// Ask the front end for half an hour of quiet.
    QuietMode,
    /// Stop the poller and leave.
    Quit,
}

/// The action of a menu item identifier.
pub open spec fn tray_action_spec(id: Seq<char>) -> Option<TrayAction> {
    if id == "show_hide"@ {
        Some(TrayAction::ToggleVisibility)
    } else if id == "open_chat"@ {
        Some(TrayAction::OpenChat)
    } else if id == "settings"@ {
        Some(TrayAction::OpenSettings)
    } else if id == "change_character"@ {
        Some(TrayAction::ChangeCharacter)
    } else if id == "quiet_mode"@ {
        Some(TrayAction::QuietMode)
    } else if id == "quit"@ {
        Some(TrayAction::Quit)
    } else {
        None
    }
}

fn is(id: &String, name: &str) -> (r: bool)
    ensures
        r == (id@ == name@),
{
    let other = String::from_str(name);
    *id == other
}

/// The action of a menu item, or `None` for an identifier the menu does not hold.
pub fn tray_action(id: &str) -> (r: Option<TrayAction>)
    ensures
        r == tray_action_spec(id@),
{
    let id = String::from_str(id);
    if is(&id, "show_hide") {
        Some(TrayAction::ToggleVisibility)
    } else if is(&id, "open_chat") {
        Some(TrayAction::OpenChat)
    } else if is(&id, "settings") {
        Some(TrayAction::OpenSettings)
    } else if is(&id, "change_character") {
        Some(TrayAction::ChangeCharacter)
    } else if is(&id, "quiet_mode") {
        Some(TrayAction::QuietMode)
    } else if is(&id, "quit") {
        Some(TrayAction::Quit)
    } else {
        None
    }
}

/// The event that an action sends to the front end, if any.
pub open spec fn front_end_event_spec(a: TrayAction) -> Option<Seq<char>> {
    match a {
        TrayAction::OpenChat => Some("tray-open-chat"@),
        TrayAction::OpenSettings => Some("tray-settings"@),
        TrayAction::ChangeCharacter => Some("tray-change-character"@),
        TrayAction::QuietMode => Some("tray-quiet-mode"@),
        _ => None,
    }
}

impl TrayAction {
    /// The event that this action sends to the front end, if any.
    pub fn front_end_event(&self) -> (r: Option<String>)
        ensures
            match front_end_event_spec(*self) {
                Some(e) => r is Some && r->Some_0@ == e,
                None => r is None,
            },
    {
        match self {
            TrayAction::OpenChat => Some(String::from_str("tray-open-chat")),
            TrayAction::OpenSettings => Some(String::from_str("tray-settings")),
            TrayAction::ChangeCharacter => Some(String::from_str("tray-change-character")),
            TrayAction::QuietMode => Some(String::from_str("tray-quiet-mode")),
            _ => None,
        }
    }

    /// Whether the action brings the overlay to the front first.
    pub fn shows_window(&self) -> (r: bool)
        ensures
            r == (*self == TrayAction::OpenChat || *self == TrayAction::OpenSettings),
    {
        match self {
            TrayAction::OpenChat | TrayAction::OpenSettings => true,
            _ => false,
        }
    }
}

} // verus!
