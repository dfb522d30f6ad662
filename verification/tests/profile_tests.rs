use openvpn_gui::profile::auth::{
    auth_dialog_result, import_auth_dialog_result, save_dialog_result, saved_credentials,
};
use openvpn_gui::profile::import::{
    import_destination, import_destination_in, import_file_name, profile_name_from_file,
};
use openvpn_gui::profile::model::{chrono_now, import_date, import_date_from_clock, VpnProfile};
use openvpn_gui::profile::storage::{
    config_dir, config_dir_in, icon_install_path, icon_path_in, profiles_config_dir,
    profiles_config_dir_in, profiles_path, profiles_path_in,
};
use openvpn_gui::window::ProfileList;

fn profile(name: &str, user: Option<&str>, pass: Option<&str>) -> VpnProfile {
    VpnProfile {
        name: name.to_string(),
        config_path: format!("/cfg/{}.ovpn", name),
        imported_at: "2024-01-01".to_string(),
        username: user.map(|u| u.to_string()),
        password: pass.map(|p| p.to_string()),
    }
}

#[test]
fn import_dates() {
    assert_eq!(import_date(0), "1970-01-01");
    assert_eq!(import_date(86400 * 364), "1970-13-05");
    assert_eq!(import_date(86400 * 365), "1971-01-01");
    assert_eq!(import_date(1_700_000_000), "2023-12-01");
    assert_eq!(import_date(u64::MAX), "584942419325-01-27");
    assert_eq!(import_date_from_clock(None), "1970-01-01");
    assert_eq!(import_date_from_clock(Some(86400 * 365)), "1971-01-01");
}

fn is_date_shape(d: &str) -> bool {
    let parts: Vec<&str> = d.split('-').collect();
    parts.len() == 3 && parts.iter().all(|p| p.len() >= 2 && p.chars().all(|c| c.is_ascii_digit()))
}

#[test]
fn new_profile_is_dated_today() {
    let d = chrono_now();
    assert!(is_date_shape(&d));
    let year: u64 = d.split('-').next().unwrap().parse().unwrap();
    assert!(year >= 2020);
    let p = VpnProfile::new("work".to_string(), "/cfg/work.ovpn".to_string(), Some("alice".to_string()));
    assert_eq!(p.name, "work");
    assert_eq!(p.config_path, "/cfg/work.ovpn");
    assert_eq!(p.username.as_deref(), Some("alice"));
    assert!(p.password.is_none());
    assert!(is_date_shape(&p.imported_at));
    let q = VpnProfile::new_at("x".to_string(), "y".to_string(), None, 86400 * 365);
    assert_eq!(q.imported_at, "1971-01-01");
    assert!(q.username.is_none());
}

#[test]
fn credential_dialog_answers() {
    let c = auth_dialog_result("connect", "alice".to_string(), "pw".to_string()).unwrap();
    assert_eq!((c.username.as_str(), c.password.as_str()), ("alice", "pw"));
    assert!(auth_dialog_result("connect", "".to_string(), "pw".to_string()).is_none());
    assert!(auth_dialog_result("connect", "alice".to_string(), "".to_string()).is_none());
    assert!(auth_dialog_result("cancel", "alice".to_string(), "pw".to_string()).is_none());
    assert!(save_dialog_result("yes"));
    assert!(!save_dialog_result("no"));
    assert_eq!(import_auth_dialog_result("save", "bob".to_string()).as_deref(), Some("bob"));
    assert!(import_auth_dialog_result("save", "".to_string()).is_none());
    assert!(import_auth_dialog_result("skip", "bob".to_string()).is_none());
}

#[test]
fn saved_credentials_need_both_fields() {
    let c = saved_credentials(&profile("a", Some("u"), Some("p"))).unwrap();
    assert_eq!((c.username.as_str(), c.password.as_str()), ("u", "p"));
    assert!(saved_credentials(&profile("a", Some("u"), None)).is_none());
    assert!(saved_credentials(&profile("a", None, Some("p"))).is_none());
}

#[test]
fn imported_names() {
    assert_eq!(import_file_name(None), "unknown.ovpn");
    assert_eq!(import_file_name(Some("x.conf".to_string())), "x.conf");
    assert_eq!(profile_name_from_file("office.ovpn"), "office");
    assert_eq!(profile_name_from_file("office.conf"), "office");
    assert_eq!(profile_name_from_file("a.conf.ovpn"), "a");
    assert_eq!(profile_name_from_file("a.ovpn.conf"), "a.ovpn");
    assert_eq!(profile_name_from_file("x.ovpn.ovpn"), "x");
    assert_eq!(profile_name_from_file("plain"), "plain");
}

#[test]
fn storage_paths() {
    assert_eq!(config_dir_in(Some("/home/a/.config")), "/home/a/.config/openvpn-gui");
    assert_eq!(config_dir_in(None), "./openvpn-gui");
    let dir = config_dir();
    assert!(dir.ends_with("/openvpn-gui"));
    if let Some(base) = dirs::config_dir() {
        assert_eq!(dir, base.join("openvpn-gui").to_string_lossy());
    }
    assert_eq!(profiles_path(), format!("{}/profiles.json", dir));
    assert_eq!(profiles_config_dir(), dir);
    assert_eq!(import_destination("x.ovpn"), format!("{}/x.ovpn", dir));
    assert!(icon_install_path().ends_with("/icons/hicolor/scalable/apps/openvpn-gui.svg"));
    if let Some(base) = dirs::data_dir() {
        let want = base.join("icons/hicolor/scalable/apps").join("openvpn-gui.svg");
        assert_eq!(icon_install_path(), want.to_string_lossy());
    }
}

#[test]
fn storage_paths_for_a_given_base() {
    assert_eq!(profiles_path_in(Some("/home/a/.config")), "/home/a/.config/openvpn-gui/profiles.json");
    assert_eq!(profiles_path_in(None), "./openvpn-gui/profiles.json");
    assert_eq!(profiles_config_dir_in(Some("/home/a/.config/")), "/home/a/.config/openvpn-gui");
    assert_eq!(profiles_config_dir_in(None), "./openvpn-gui");
    assert_eq!(
        import_destination_in(Some("/home/a/.config"), "work.ovpn"),
        "/home/a/.config/openvpn-gui/work.ovpn"
    );
    assert_eq!(import_destination_in(None, "/abs/x.ovpn"), "/abs/x.ovpn");
    assert_eq!(
        icon_path_in(Some("/home/a/.local/share")),
        "/home/a/.local/share/icons/hicolor/scalable/apps/openvpn-gui.svg"
    );
    assert_eq!(icon_path_in(None), "./icons/hicolor/scalable/apps/openvpn-gui.svg");
}

#[test]
fn profile_list_operations() {
    let mut l = ProfileList::new(vec![profile("a", None, None), profile("b", None, None)]);
    l.add_profile(profile("a", None, None));
    l.add_profile(profile("c", None, None));
    assert_eq!(l.profiles.len(), 4);
    l.save_profile_credentials("a", "u", "p");
    assert_eq!(l.profiles[0].username.as_deref(), Some("u"));
    assert_eq!(l.profiles[0].password.as_deref(), Some("p"));
    assert!(l.profiles[2].username.is_none());
    let c = saved_credentials(&l.profiles[0]).unwrap();
    assert_eq!(c.password, "p");
    l.save_profile_credentials("zzz", "u", "p");
    assert!(l.profiles[1].username.is_none());
    l.remove_profile("a");
    let names: Vec<&str> = l.profiles.iter().map(|p| p.name.as_str()).collect();
    assert_eq!(names, vec!["b", "c"]);
    l.remove_profile("nothing");
    assert_eq!(l.profiles.len(), 2);
}
