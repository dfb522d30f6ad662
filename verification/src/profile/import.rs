//! Naming an imported configuration file.

use vstd::prelude::*;
use crate::path::{join_path, path_join};
use crate::profile::storage::{
    base_text, configs_dir_text, owned_base_text, profiles_config_dir_in, user_config_dir,
};
use crate::text::{chars_of, string_of, trim_end_matches, trim_end_matches_chars};

verus! {

/// The file name used when the chosen path has none that is valid text.
pub open spec fn default_file_name() -> Seq<char> {
    "unknown.ovpn"@
}

/// The file name under which a chosen configuration is imported.
pub fn import_file_name(file_name: Option<String>) -> (n: String)
    ensures
        n@ == match file_name {
            Some(f) => f@,
            None => default_file_name(),
        },
{
    match file_name {
        Some(f) => f,
        None => "unknown.ovpn".to_owned(),
    }
}

/// The profile name of a configuration file: its name with every trailing
/// `.ovpn` removed, then every trailing `.conf`.
pub open spec fn profile_name_text(file_name: Seq<char>) -> Seq<char> {
    trim_end_matches(trim_end_matches(file_name, ".ovpn"@), ".conf"@)
}

/// The profile name of an imported configuration file.
pub fn profile_name_from_file(file_name: &str) -> (n: String)
    ensures
        n@ == profile_name_text(file_name@),
{
    let v = chars_of(file_name);
    let a = trim_end_matches_chars(&v, &chars_of(".ovpn"));
    let b = trim_end_matches_chars(&a, &chars_of(".conf"));
    string_of(&b)
}

/// Where an imported configuration file is copied to, for the user
/// configuration directory `base`.
pub fn import_destination_in(base: Option<&str>, file_name: &str) -> (p: String)
    ensures
        p@ == path_join(configs_dir_text(base_text(base)), file_name@),
{
    let dir = profiles_config_dir_in(base);
    join_path(dir.as_str(), file_name)
}

/// Where an imported configuration file is copied to, for the current user.
pub fn import_destination(file_name: &str) -> (p: String)
    ensures
        exists|base: Option<Seq<char>>|
            #[trigger] path_join(configs_dir_text(base), file_name@) == p@,
{
    let base = user_config_dir();
    let p = match &base {
        Some(b) => import_destination_in(Some(b.as_str()), file_name),
        None => import_destination_in(None, file_name),
    };
    assert(path_join(configs_dir_text(owned_base_text(base)), file_name@) == p@);
    p
}

} // verus!
