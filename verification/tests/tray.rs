use esphome_desktop::tray::{
    build_tray_menu, handle_menu_event, handle_tray_click, update_status, ButtonState,
    MenuCommand, MenuEntry, MouseButton, CHECK_UPDATES,
    OPEN_CONFIG, OPEN_DASHBOARD, PORT, QUIT, RESTART, STATUS, VIEW_LOGS,
};

fn item(id: &str, label: &str, enabled: bool, accelerator: Option<&str>) -> MenuEntry {
    MenuEntry::Item {
        id: id.to_string(),
        label: label.to_string(),
        enabled,
        accelerator: accelerator.map(|a| a.to_string()),
    }
}

#[test]
fn the_menu_holds_its_entries_in_order() {
    assert_eq!(
        build_tray_menu(false, 6052),
        vec![
            item("open_dashboard", "Open Dashboard", true, Some("CmdOrCtrl+O")),
            MenuEntry::Separator,
            item("status", "Status: Starting...", false, None),
            item("port", "Port: 6052", false, None),
            MenuEntry::Separator,
            item("check_updates", "Check for Updates...", true, None),
            MenuEntry::Separator,
            item("view_logs", "View Logs...", true, None),
            item("open_config", "Open Config Folder...", true, None),
            item("restart", "Restart Dashboard", true, None),
            MenuEntry::Separator,
            item("quit", "Quit ESPHome", true, None),
        ]
    );
}

#[test]
fn the_menu_shows_a_running_worker_and_its_port() {
    let menu = build_tray_menu(true, 80);
    assert_eq!(menu[2], item(STATUS, "Status: Running", false, None));
    assert_eq!(menu[3], item(PORT, "Port: 80", false, None));
    assert_eq!(menu.len(), 12);
}

#[test]
fn the_status_line_tells_running_from_stopped() {
    assert_eq!(update_status(true), "Status: Running");
    assert_eq!(update_status(false), "Status: Stopped");
}

#[test]
fn clicks_are_told_by_their_identifier() {
    assert_eq!(handle_menu_event(OPEN_DASHBOARD), MenuCommand::OpenDashboard);
    assert_eq!(handle_menu_event(CHECK_UPDATES), MenuCommand::CheckUpdates);
    assert_eq!(handle_menu_event(VIEW_LOGS), MenuCommand::ViewLogs);
    assert_eq!(handle_menu_event(OPEN_CONFIG), MenuCommand::OpenConfig);
    assert_eq!(handle_menu_event(RESTART), MenuCommand::Restart);
    assert_eq!(handle_menu_event(QUIT), MenuCommand::Quit);
    assert_eq!(handle_menu_event("quit"), MenuCommand::Quit);
}

#[test]
fn other_identifiers_ask_for_nothing() {
    for id in ["", "status", "port", "Quit", "quit ", "restart_now", "open"] {
        assert_eq!(handle_menu_event(id), MenuCommand::Nothing, "{id:?}");
    }
}

#[test]
fn letting_go_of_the_left_button_opens_the_dashboard() {
    assert_eq!(handle_tray_click(MouseButton::Left, ButtonState::Up), MenuCommand::OpenDashboard);
    assert_eq!(handle_tray_click(MouseButton::Left, ButtonState::Down), MenuCommand::Nothing);
    for button in [MouseButton::Right, MouseButton::Middle] {
        for state in [ButtonState::Up, ButtonState::Down] {
            assert_eq!(handle_tray_click(button, state), MenuCommand::Nothing);
        }
    }
}
