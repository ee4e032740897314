use desktop_sense::tray::{tray_action, TrayAction};

#[test]
fn menu_ids_map_to_actions() {
    assert_eq!(tray_action("show_hide"), Some(TrayAction::ToggleVisibility));
    assert_eq!(tray_action("open_chat"), Some(TrayAction::OpenChat));
    assert_eq!(tray_action("settings"), Some(TrayAction::OpenSettings));
    assert_eq!(tray_action("change_character"), Some(TrayAction::ChangeCharacter));
    assert_eq!(tray_action("quiet_mode"), Some(TrayAction::QuietMode));
    assert_eq!(tray_action("quit"), Some(TrayAction::Quit));
    assert_eq!(tray_action("Quit"), None);
    assert_eq!(tray_action(""), None);
}

#[test]
fn actions_front_end_events() {
    assert_eq!(TrayAction::OpenChat.front_end_event().unwrap(), "tray-open-chat");
    assert_eq!(TrayAction::OpenSettings.front_end_event().unwrap(), "tray-settings");
    assert_eq!(TrayAction::ChangeCharacter.front_end_event().unwrap(), "tray-change-character");
    assert_eq!(TrayAction::QuietMode.front_end_event().unwrap(), "tray-quiet-mode");
    assert!(TrayAction::Quit.front_end_event().is_none());
    assert!(TrayAction::ToggleVisibility.front_end_event().is_none());
    assert!(TrayAction::OpenChat.shows_window());
    assert!(!TrayAction::Quit.shows_window());
}
