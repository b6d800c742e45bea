//! The tray menu: what it holds, what its status line says, and what a
//! click on one of its entries asks for.

use vstd::prelude::*;
use vstd::string::*;
use crate::notice::text_view;
use crate::text::{decimal, decimal_text, same_text};

verus! {

/// Identifier of the entry that opens the dashboard.
pub const OPEN_DASHBOARD: &'static str = "open_dashboard";

/// Identifier of the status line.
pub const STATUS: &'static str = "status";

/// Identifier of the line that shows the port.
pub const PORT: &'static str = "port";

/// Identifier of the entry that checks for updates.
pub const CHECK_UPDATES: &'static str = "check_updates";

/// Identifier of the entry that opens the log directory.
pub const VIEW_LOGS: &'static str = "view_logs";

/// Identifier of the entry that opens the configuration directory.
pub const OPEN_CONFIG: &'static str = "open_config";

/// Identifier of the entry that restarts the dashboard.
pub const RESTART: &'static str = "restart";

/// Identifier of the entry that quits the application.
pub const QUIT: &'static str = "quit";

/// One line of the menu.
#[derive(Clone, Debug, PartialEq, Eq)]
pub enum MenuEntry {
    Separator,
    Item { id: String, label: String, enabled: bool, accelerator: Option<String> },
}

/// What a line of the menu says.
pub ghost enum MenuEntryView {
    Separator,
    Item { id: Seq<char>, label: Seq<char>, enabled: bool, accelerator: Option<Seq<char>> },
}

impl View for MenuEntry {
    type V = MenuEntryView;

    open spec fn view(&self) -> MenuEntryView {
        match *self {
            MenuEntry::Separator => MenuEntryView::Separator,
            MenuEntry::Item { id, label, enabled, accelerator } => MenuEntryView::Item {
                id: id@,
                label: label@,
                enabled,
                accelerator: text_view(accelerator),
            },
        }
    }
}

/// An entry that can be chosen.
pub open spec fn choice(id: Seq<char>, label: Seq<char>) -> MenuEntryView {
    MenuEntryView::Item { id, label, enabled: true, accelerator: None }
}

/// A line that only tells something.
pub open spec fn notice_line(id: Seq<char>, label: Seq<char>) -> MenuEntryView {
    MenuEntryView::Item { id, label, enabled: false, accelerator: None }
}

/// What the status line says of a worker that runs or has stopped.
pub open spec fn status_text(running: bool) -> Seq<char> {
    if running {
        "Status: Running"@
    } else {
        "Status: Stopped"@
    }
}

/// What the status line says when the menu is built: a worker that does not
/// run yet is on its way.
pub open spec fn first_status_text(running: bool) -> Seq<char> {
    if running {
        "Status: Running"@
    } else {
        "Status: Starting..."@
    }
}

/// The menu for a dashboard on `port`.
pub open spec fn tray_menu(running: bool, port: u16) -> Seq<MenuEntryView> {
    seq![
        MenuEntryView::Item {
            id: OPEN_DASHBOARD@,
            label: "Open Dashboard"@,
            enabled: true,
            accelerator: Some("CmdOrCtrl+O"@),
        },
        MenuEntryView::Separator,
        notice_line(STATUS@, first_status_text(running)),
        notice_line(PORT@, "Port: "@ + decimal_text(port as nat)),
        MenuEntryView::Separator,
        choice(CHECK_UPDATES@, "Check for Updates..."@),
        MenuEntryView::Separator,
        choice(VIEW_LOGS@, "View Logs..."@),
        choice(OPEN_CONFIG@, "Open Config Folder..."@),
        choice(RESTART@, "Restart Dashboard"@),
        MenuEntryView::Separator,
        choice(QUIT@, "Quit ESPHome"@),
    ]
}

/// Makes an entry that can be chosen.
fn entry(id: &str, label: &str) -> (e: MenuEntry)
    ensures
        e@ == choice(id@, label@),
{
    MenuEntry::Item {
        id: String::from_str(id),
        label: String::from_str(label),
        enabled: true,
        accelerator: None,
    }
}

/// Makes a line that only tells something.
fn line(id: &str, label: String) -> (e: MenuEntry)
    ensures
        e@ == notice_line(id@, label@),
{
    MenuEntry::Item { id: String::from_str(id), label, enabled: false, accelerator: None }
}

/// Builds the menu for a dashboard on `port`.
pub fn build_tray_menu(running: bool, port: u16) -> (menu: Vec<MenuEntry>)
    ensures
        Seq::new(menu@.len(), |i: int| menu@[i]@) == tray_menu(running, port),
{
    let status = if running {
        "Status: Running"
    } else {
        "Status: Starting..."
    };
    let digits = decimal(port);
    let mut port_label = String::from_str("Port: ");
    port_label.append(digits.as_str());
    let mut menu: Vec<MenuEntry> = Vec::new();
    menu.push(
        MenuEntry::Item {
            id: String::from_str(OPEN_DASHBOARD),
            label: String::from_str("Open Dashboard"),
            enabled: true,
            accelerator: Some(String::from_str("CmdOrCtrl+O")),
        },
    );
    menu.push(MenuEntry::Separator);
    menu.push(line(STATUS, String::from_str(status)));
    menu.push(line(PORT, port_label));
    menu.push(MenuEntry::Separator);
    menu.push(entry(CHECK_UPDATES, "Check for Updates..."));
    menu.push(MenuEntry::Separator);
    menu.push(entry(VIEW_LOGS, "View Logs..."));
    menu.push(entry(OPEN_CONFIG, "Open Config Folder..."));
    menu.push(entry(RESTART, "Restart Dashboard"));
    menu.push(MenuEntry::Separator);
    menu.push(entry(QUIT, "Quit ESPHome"));
    assert(Seq::new(menu@.len(), |i: int| menu@[i]@) =~= tray_menu(running, port));
    menu
}

/// Words the status line for a worker that runs or has stopped.
pub fn update_status(running: bool) -> (text: String)
    ensures
        text@ == status_text(running),
{
    if running {
        String::from_str("Status: Running")
    } else {
        String::from_str("Status: Stopped")
    }
}

/// What a click on the menu asks for.
#[derive(Clone, Copy, Debug, PartialEq, Eq, Structural)]
pub enum MenuCommand {
    /// Open the dashboard in the browser.
    OpenDashboard,
    /// Check for updates and, if the user accepts one, install it.
    CheckUpdates,
    /// Open the log directory.
    ViewLogs,
    /// Open the configuration directory.
    OpenConfig,
    /// Restart the worker.
    Restart,
    /// Stop the worker and leave.
    Quit,
    /// The entry asks for nothing.
    Nothing,
}

/// The buttons of a pointer.
#[derive(Clone, Copy, Debug, PartialEq, Eq, Structural)]
pub enum MouseButton {
    Left,
    Right,
    Middle,
}

/// Whether a button went down or came up.
#[derive(Clone, Copy, Debug, PartialEq, Eq, Structural)]
pub enum ButtonState {
    Up,
    Down,
}

/// What a click on the tray icon itself asks for: the dashboard, once the
/// left button is let go; nothing otherwise.
pub fn handle_tray_click(button: MouseButton, state: ButtonState) -> (command: MenuCommand)
    ensures
        command == if button == MouseButton::Left && state == ButtonState::Up {
            MenuCommand::OpenDashboard
        } else {
            MenuCommand::Nothing
        },
{
    match (button, state) {
        (MouseButton::Left, ButtonState::Up) => MenuCommand::OpenDashboard,
        _ => MenuCommand::Nothing,
    }
}

/// What a click on the entry `id` asks for.
pub open spec fn menu_command(id: Seq<char>) -> MenuCommand {
    if id == OPEN_DASHBOARD@ {
        MenuCommand::OpenDashboard
    } else if id == CHECK_UPDATES@ {
        MenuCommand::CheckUpdates
    } else if id == VIEW_LOGS@ {
        MenuCommand::ViewLogs
    } else if id == OPEN_CONFIG@ {
        MenuCommand::OpenConfig
    } else if id == RESTART@ {
        MenuCommand::Restart
    } else if id == QUIT@ {
        MenuCommand::Quit
    } else {
        MenuCommand::Nothing
    }
}

/// Tells what a click on the entry `id` asks for.
pub fn handle_menu_event(id: &str) -> (command: MenuCommand)
    ensures
        command == menu_command(id@),
{
    if same_text(id, OPEN_DASHBOARD) {
        MenuCommand::OpenDashboard
    } else if same_text(id, CHECK_UPDATES) {
        MenuCommand::CheckUpdates
    } else if same_text(id, VIEW_LOGS) {
        MenuCommand::ViewLogs
    } else if same_text(id, OPEN_CONFIG) {
        MenuCommand::OpenConfig
    } else if same_text(id, RESTART) {
        MenuCommand::Restart
    } else if same_text(id, QUIT) {
        MenuCommand::Quit
    } else {
        MenuCommand::Nothing
    }
}

} // verus!
