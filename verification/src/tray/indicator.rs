//! What the tray icon shows and what its menu entries ask the application
//! to do.

use vstd::prelude::*;

verus! {

/// A request sent from the tray icon to the application.
#[derive(Debug, Clone, Copy, PartialEq, Eq, Structural)]
pub enum TrayCommand {
    ShowWindow,
    ShowPanel,
    Quit,
}

/// One entry of the tray menu.
pub enum TrayMenuEntry {
    /// A clickable entry sending `command`; an empty `icon_name` means none.
    Item { label: String, icon_name: String, command: TrayCommand },
    /// A separator line.
    Separator,
}

/// The entry is an item with this label, icon and command.
pub open spec fn is_item(e: TrayMenuEntry, label: Seq<char>, icon: Seq<char>, command: TrayCommand) -> bool {
    e matches TrayMenuEntry::Item { label: l, icon_name: i, command: c } && l@ == label && i@ == icon
        && c == command
}

/// The tray menu: the status panel, the main window, a separator, and quit.
pub fn tray_menu() -> (m: Vec<TrayMenuEntry>)
    ensures
        m@.len() == 4,
        is_item(m@[0], "Status Panel"@, ""@, TrayCommand::ShowPanel),
        is_item(m@[1], "Open Window"@, ""@, TrayCommand::ShowWindow),
        m@[2] is Separator,
        is_item(m@[3], "Quit"@, "application-exit-symbolic"@, TrayCommand::Quit),
{
    let mut m: Vec<TrayMenuEntry> = Vec::new();
    m.push(
        TrayMenuEntry::Item {
            label: "Status Panel".to_owned(),
            icon_name: "".to_owned(),
            command: TrayCommand::ShowPanel,
        },
    );
    m.push(
        TrayMenuEntry::Item {
            label: "Open Window".to_owned(),
            icon_name: "".to_owned(),
            command: TrayCommand::ShowWindow,
        },
    );
    m.push(TrayMenuEntry::Separator);
    m.push(
        TrayMenuEntry::Item {
            label: "Quit".to_owned(),
            icon_name: "application-exit-symbolic".to_owned(),
            command: TrayCommand::Quit,
        },
    );
    m
}

/// What clicking the tray icon itself asks for: the status panel.
pub fn activate_command() -> (c: TrayCommand)
    ensures
        c == TrayCommand::ShowPanel,
{
    TrayCommand::ShowPanel
}

/// The tray icon's state: whether a VPN is connected.
pub struct TrayStatus {
    pub connected: bool,
}

/// The tool tip's description for a connection state.
pub open spec fn tool_tip_text(connected: bool) -> Seq<char> {
    if connected {
        "VPN Connected"@
    } else {
        "VPN Disconnected"@
    }
}

impl TrayStatus {
    /// The state at start-up: not connected.
    pub fn new() -> (s: Self)
        ensures
            !s.connected,
    {
        TrayStatus { connected: false }
    }

    /// Records whether a VPN is connected.
    pub fn set_connected(&mut self, connected: bool)
        ensures
            final(self).connected == connected,
    {
        self.connected = connected;
    }

    /// The description shown in the tool tip.
    pub fn tool_tip_description(&self) -> (d: String)
        ensures
            d@ == tool_tip_text(self.connected),
    {
        if self.connected {
            "VPN Connected".to_owned()
        } else {
            "VPN Disconnected".to_owned()
        }
    }
}

/// The tray icon's identifier.
pub fn tray_id() -> (s: String)
    ensures
        s@ == "openvpn-gui"@,
{
    "openvpn-gui".to_owned()
}

/// The tray icon's title, also the tool tip's title.
pub fn tray_title() -> (s: String)
    ensures
        s@ == "OpenVPN GUI"@,
{
    "OpenVPN GUI".to_owned()
}

/// The tray icon's icon name.
pub fn tray_icon_name() -> (s: String)
    ensures
        s@ == "openvpn-gui"@,
{
    "openvpn-gui".to_owned()
}

/// What the application does for a tray request.
#[derive(Debug, Clone, Copy, PartialEq, Eq, Structural)]
pub enum MainAction {
    /// Activate the application (show or create the main window).
    ActivateApp,
    /// Raise the status panel that is already shown.
    PresentPanel,
    /// Create and show a new status panel.
    OpenPanel,
    /// Quit the application.
    Quit,
}

/// The action for a tray request, given whether a status panel is open and
/// visible.
pub fn tray_command_action(command: TrayCommand, panel_visible: bool) -> (a: MainAction)
    ensures
        a == match command {
            TrayCommand::ShowWindow => MainAction::ActivateApp,
            TrayCommand::ShowPanel => if panel_visible {
                MainAction::PresentPanel
            } else {
                MainAction::OpenPanel
            },
            TrayCommand::Quit => MainAction::Quit,
        },
{
    match command {
        TrayCommand::ShowWindow => MainAction::ActivateApp,
        TrayCommand::ShowPanel => if panel_visible {
            MainAction::PresentPanel
        } else {
            MainAction::OpenPanel
        },
        TrayCommand::Quit => MainAction::Quit,
    }
}

} // verus!
