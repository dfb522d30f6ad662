//! Where profiles and imported configuration files are kept.
//!
//! The profiles file `profiles.json` and the imported configuration files
//! both live in `openvpn-gui` inside the user's configuration directory
//! (`.` when there is none).

use vstd::prelude::*;
use crate::path::{join_path, path_join};

verus! {

/// `dirs::config_dir`, as text (`to_string_lossy`: a directory whose name
/// is not valid UTF-8 has its invalid bytes replaced by U+FFFD).  Nothing is
/// stated of the result: it comes from the environment (`XDG_CONFIG_HOME`,
/// `HOME`) and the user database.
#[verifier::external_body]
pub(crate) fn user_config_dir() -> Option<String> {
    dirs::config_dir().map(|p| p.to_string_lossy().into_owned())
}

/// The application's configuration directory inside `base`, or inside `.`
/// when the user has none.
pub open spec fn config_dir_text(base: Option<Seq<char>>) -> Seq<char> {
    path_join(
        match base {
            Some(b) => b,
            None => "."@,
        },
        "openvpn-gui"@,
    )
}

/// The application's configuration directory inside `base`.
pub fn config_dir_in(base: Option<&str>) -> (d: String)
    ensures
        d@ == config_dir_text(base_text(base)),
{
    match base {
        Some(b) => join_path(b, "openvpn-gui"),
        None => join_path(".", "openvpn-gui"),
    }
}

/// The text of an optional base directory.
pub open spec fn base_text(base: Option<&str>) -> Option<Seq<char>> {
    match base {
        Some(b) => Some(b@),
        None => None,
    }
}

/// The text of an optional owned base directory.
pub open spec fn owned_base_text(base: Option<String>) -> Option<Seq<char>> {
    match base {
        Some(b) => Some(b@),
        None => None,
    }
}

/// The path of the profiles file for the user configuration directory `base`.
pub open spec fn profiles_path_text(base: Option<Seq<char>>) -> Seq<char> {
    path_join(config_dir_text(base), "profiles.json"@)
}

/// The directory of imported configurations for the user configuration
/// directory `base`: the application's configuration directory itself.
pub open spec fn configs_dir_text(base: Option<Seq<char>>) -> Seq<char> {
    config_dir_text(base)
}

/// The path of the profiles file inside the user configuration directory
/// `base`.
pub fn profiles_path_in(base: Option<&str>) -> (p: String)
    ensures
        p@ == profiles_path_text(base_text(base)),
{
    let d = config_dir_in(base);
    join_path(d.as_str(), "profiles.json")
}

/// The directory imported configurations are copied to, for the user
/// configuration directory `base`.
pub fn profiles_config_dir_in(base: Option<&str>) -> (p: String)
    ensures
        p@ == configs_dir_text(base_text(base)),
{
    config_dir_in(base)
}

/// The application's configuration directory for the current user.
pub fn config_dir() -> (d: String)
    ensures
        exists|base: Option<Seq<char>>| #[trigger] config_dir_text(base) == d@,
{
    let base = user_config_dir();
    let d = match &base {
        Some(b) => config_dir_in(Some(b.as_str())),
        None => config_dir_in(None),
    };
    assert(config_dir_text(owned_base_text(base)) == d@);
    d
}

/// The path of the profiles file (`profiles.json`) for the current user.
pub fn profiles_path() -> (p: String)
    ensures
        exists|base: Option<Seq<char>>| #[trigger] profiles_path_text(base) == p@,
{
    let base = user_config_dir();
    let p = match &base {
        Some(b) => profiles_path_in(Some(b.as_str())),
        None => profiles_path_in(None),
    };
    assert(profiles_path_text(owned_base_text(base)) == p@);
    p
}

/// The directory the imported configuration files are copied to, for the
/// current user.
pub fn profiles_config_dir() -> (p: String)
    ensures
        exists|base: Option<Seq<char>>| #[trigger] configs_dir_text(base) == p@,
{
    let base = user_config_dir();
    let p = match &base {
        Some(b) => profiles_config_dir_in(Some(b.as_str())),
        None => profiles_config_dir_in(None),
    };
    assert(configs_dir_text(owned_base_text(base)) == p@);
    p
}

/// `dirs::data_dir`, as text (`to_string_lossy`: a directory whose name is
/// not valid UTF-8 has its invalid bytes replaced by U+FFFD).  Nothing is
/// stated of the result: it comes from the environment (`XDG_DATA_HOME`,
/// `HOME`) and the user database.
#[verifier::external_body]
fn user_data_dir() -> Option<String> {
    dirs::data_dir().map(|p| p.to_string_lossy().into_owned())
}

/// Where the application icon is installed for the user data directory
/// `base` (`.` when there is none).
pub open spec fn icon_path_text(base: Option<Seq<char>>) -> Seq<char> {
    path_join(
        path_join(
            match base {
                Some(b) => b,
                None => "."@,
            },
            "icons/hicolor/scalable/apps"@,
        ),
        "openvpn-gui.svg"@,
    )
}

/// Where the application icon is installed for the user data directory
/// `base`.
pub fn icon_path_in(base: Option<&str>) -> (p: String)
    ensures
        p@ == icon_path_text(base_text(base)),
{
    let dir = match base {
        Some(b) => join_path(b, "icons/hicolor/scalable/apps"),
        None => join_path(".", "icons/hicolor/scalable/apps"),
    };
    join_path(dir.as_str(), "openvpn-gui.svg")
}

/// Where the application icon is installed for the current user.
pub fn icon_install_path() -> (p: String)
    ensures
        exists|base: Option<Seq<char>>| #[trigger] icon_path_text(base) == p@,
{
    let base = user_data_dir();
    let p = match &base {
        Some(b) => icon_path_in(Some(b.as_str())),
        None => icon_path_in(None),
    };
    assert(icon_path_text(owned_base_text(base)) == p@);
    p
}

} // verus!
