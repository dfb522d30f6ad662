use openvpn_gui::panel::{first_connected, listed_profile_count, panel_status};
use openvpn_gui::profile::auth::AuthCredentials;
use openvpn_gui::profile::model::VpnProfile;
use openvpn_gui::stats::{format_duration, stats_timer_continues, StatsState, MAX_SAMPLES};
use openvpn_gui::toggle::{ProfileToggle, TaskOutcome, ToggleEffect, ToggleView};
use openvpn_gui::tray::indicator::{
    activate_command, tray_command_action, tray_icon_name, tray_id, tray_menu, tray_title,
    MainAction, TrayCommand, TrayMenuEntry, TrayStatus,
};
use openvpn_gui::window::{
    close_dialog_action, delete_dialog_confirms, status_banner_style, BannerStyle, CloseAction,
};

#[test]
fn banner_styles() {
    assert_eq!(status_banner_style("CONNECTED"), BannerStyle::Success);
    assert_eq!(status_banner_style("DISCONNECTED"), BannerStyle::Dim);
    assert_eq!(status_banner_style("CONNECTING..."), BannerStyle::Warning);
    assert_eq!(status_banner_style(""), BannerStyle::Dim);
}

#[test]
fn close_dialog_answers() {
    assert_eq!(close_dialog_action("minimize"), CloseAction::Minimize);
    assert_eq!(close_dialog_action("quit"), CloseAction::Quit);
    assert_eq!(close_dialog_action("other"), CloseAction::Stay);
}

#[test]
fn durations() {
    assert_eq!(format_duration(0), "00m 00s");
    assert_eq!(format_duration(59), "00m 59s");
    assert_eq!(format_duration(61), "01m 01s");
    assert_eq!(format_duration(3600), "01h 00m 00s");
    assert_eq!(format_duration(3661), "01h 01m 01s");
    assert_eq!(format_duration(360000), "100h 00m 00s");
}

#[test]
fn counters_and_speed_window() {
    let mut s: StatsState<u64> = StatsState::new();
    assert_eq!(s.record_counters(0, 10), None);
    assert_eq!(s.record_counters(100, 50), None);
    assert_eq!(s.record_counters(300, 40), Some((200, 0)));
    assert_eq!(s.last_bytes_in, 300);
    for i in 0..(MAX_SAMPLES as u64 + 5) {
        s.push_speeds(i, 1000 + i);
    }
    assert_eq!(s.download_speeds.len(), MAX_SAMPLES);
    assert_eq!(s.upload_speeds.len(), MAX_SAMPLES);
    assert_eq!(s.download_speeds[0], 5);
    assert_eq!(*s.download_speeds.last().unwrap(), MAX_SAMPLES as u64 + 4);
    assert_eq!(s.upload_speeds[0], 1005);
}

#[test]
fn tray_menu_and_texts() {
    let m = tray_menu();
    assert_eq!(m.len(), 4);
    match &m[0] {
        TrayMenuEntry::Item { label, icon_name, command } => {
            assert_eq!(label, "Status Panel");
            assert_eq!(icon_name, "");
            assert_eq!(*command, TrayCommand::ShowPanel);
        },
        _ => panic!("expected an item"),
    }
    assert!(matches!(m[2], TrayMenuEntry::Separator));
    match &m[3] {
        TrayMenuEntry::Item { label, icon_name, command } => {
            assert_eq!(label, "Quit");
            assert_eq!(icon_name, "application-exit-symbolic");
            assert_eq!(*command, TrayCommand::Quit);
        },
        _ => panic!("expected an item"),
    }
    assert_eq!(activate_command(), TrayCommand::ShowPanel);
    assert_eq!(tray_id(), "openvpn-gui");
    assert_eq!(tray_title(), "OpenVPN GUI");
    assert_eq!(tray_icon_name(), "openvpn-gui");
    let mut t = TrayStatus::new();
    assert_eq!(t.tool_tip_description(), "VPN Disconnected");
    t.set_connected(true);
    assert_eq!(t.tool_tip_description(), "VPN Connected");
}

#[test]
fn tray_dispatch() {
    assert_eq!(tray_command_action(TrayCommand::ShowWindow, false), MainAction::ActivateApp);
    assert_eq!(tray_command_action(TrayCommand::ShowPanel, true), MainAction::PresentPanel);
    assert_eq!(tray_command_action(TrayCommand::ShowPanel, false), MainAction::OpenPanel);
    assert_eq!(tray_command_action(TrayCommand::Quit, true), MainAction::Quit);
}

#[test]
fn panel_listing() {
    assert_eq!(listed_profile_count(3), 3);
    assert_eq!(listed_profile_count(25), 10);
    assert_eq!(first_connected(&vec![false, true, true]), Some(1));
    assert_eq!(first_connected(&vec![false, false]), None);
    assert_eq!(panel_status(true), "CONNECTED");
    assert_eq!(panel_status(false), "DISCONNECTED");
}

fn profile(user: Option<&str>, pass: Option<&str>) -> VpnProfile {
    VpnProfile {
        name: "work".to_string(),
        config_path: "/cfg/work.ovpn".to_string(),
        imported_at: "2024-01-01".to_string(),
        username: user.map(|u| u.to_string()),
        password: pass.map(|p| p.to_string()),
    }
}

fn describe(effects: &[ToggleEffect]) -> Vec<String> {
    effects
        .iter()
        .map(|e| match e {
            ToggleEffect::SetSwitch(b) => format!("switch {}", b),
            ToggleEffect::Status(s) => format!("status {}", s),
            ToggleEffect::Toast(s) => format!("toast {}", s),
            ToggleEffect::AskCredentials { username, password } => {
                format!("ask {:?} {:?}", username, password)
            },
            ToggleEffect::Connect(c) => format!("connect {} {}", c.username, c.password),
            ToggleEffect::Disconnect => "disconnect".to_string(),
            ToggleEffect::ShowStats => "show stats".to_string(),
            ToggleEffect::HideStats => "hide stats".to_string(),
            ToggleEffect::OfferSave(c) => format!("offer {} {}", c.username, c.password),
            ToggleEffect::SaveCredentials(c) => format!("save {} {}", c.username, c.password),
        })
        .collect()
}

fn creds() -> AuthCredentials {
    AuthCredentials { username: "alice".to_string(), password: "pw".to_string() }
}

#[test]
fn row_switch_with_saved_credentials() {
    let t = ProfileToggle::for_profile(&profile(Some("u"), Some("p")), ToggleView::Window);
    assert_eq!(describe(&t.switched(true)), vec!["status CONNECTING...", "connect u p"]);
    assert_eq!(describe(&t.switched(false)), vec!["disconnect"]);
    let e = t.connect_finished(creds(), TaskOutcome::Succeeded);
    assert_eq!(describe(&e), vec!["switch true", "status CONNECTED", "toast Connected to work", "show stats"]);
}

#[test]
fn row_switch_without_saved_credentials() {
    let t = ProfileToggle::for_profile(&profile(Some("u"), None), ToggleView::Window);
    assert_eq!(describe(&t.switched(true)), vec!["ask Some(\"u\") None"]);
    assert_eq!(describe(&t.credentials_entered(None)), vec!["switch false"]);
    assert_eq!(describe(&t.credentials_entered(Some(creds()))), vec!["status CONNECTING...", "connect alice pw"]);
    let e = t.connect_finished(creds(), TaskOutcome::Succeeded);
    assert_eq!(
        describe(&e),
        vec!["switch true", "status CONNECTED", "toast Connected to work", "show stats", "offer alice pw"]
    );
    assert_eq!(describe(&t.save_answered(creds(), true)), vec!["save alice pw", "toast Credentials saved"]);
    assert!(t.save_answered(creds(), false).is_empty());
}

#[test]
fn row_failures() {
    let t = ProfileToggle::for_profile(&profile(None, None), ToggleView::Window);
    let e = t.connect_finished(creds(), TaskOutcome::Failed("openvpn failed: x".to_string()));
    assert_eq!(describe(&e), vec!["switch false", "status DISCONNECTED", "toast Failed: openvpn failed: x"]);
    let e = t.connect_finished(creds(), TaskOutcome::Crashed);
    assert_eq!(describe(&e), vec!["switch false", "status DISCONNECTED"]);
    let e = t.disconnect_finished(TaskOutcome::Succeeded);
    assert_eq!(describe(&e), vec!["switch false", "status DISCONNECTED", "toast Disconnected from work", "hide stats"]);
    let e = t.disconnect_finished(TaskOutcome::Failed("no".to_string()));
    assert_eq!(describe(&e), vec!["switch true", "toast Disconnect failed: no"]);
    assert!(t.disconnect_finished(TaskOutcome::Crashed).is_empty());
    assert_eq!(describe(&t.shown(true)), vec!["switch true", "show stats"]);
    assert!(t.shown(false).is_empty());
}

#[test]
fn panel_switch() {
    let t = ProfileToggle::for_profile(&profile(None, None), ToggleView::Panel);
    let e = t.connect_finished(creds(), TaskOutcome::Succeeded);
    assert_eq!(describe(&e), vec!["switch true", "status CONNECTED", "show stats"]);
    let e = t.connect_finished(creds(), TaskOutcome::Failed("x".to_string()));
    assert_eq!(describe(&e), vec!["switch false", "status DISCONNECTED"]);
    assert_eq!(describe(&t.connect_finished(creds(), TaskOutcome::Crashed)), vec!["switch false"]);
    let e = t.disconnect_finished(TaskOutcome::Succeeded);
    assert_eq!(describe(&e), vec!["switch false", "status DISCONNECTED", "hide stats"]);
    assert_eq!(describe(&t.disconnect_finished(TaskOutcome::Failed("x".to_string()))), vec!["switch true"]);
    assert_eq!(describe(&t.shown(true)), vec!["switch true"]);
}

#[test]
fn stats_default_is_empty() {
    let s: StatsState<f64> = StatsState::default();
    assert_eq!(s.last_bytes_in, 0);
    assert_eq!(s.last_bytes_out, 0);
    assert!(s.download_speeds.is_empty() && s.upload_speeds.is_empty());
}

#[test]
fn delete_dialog_and_timer_decisions() {
    assert!(delete_dialog_confirms("remove"));
    assert!(!delete_dialog_confirms("cancel"));
    assert!(stats_timer_continues(true, true));
    assert!(!stats_timer_continues(false, true));
    assert!(!stats_timer_continues(true, false));
}
