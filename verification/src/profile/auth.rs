//! Credentials and the decisions taken on the answers of the credential
//! dialogs.

use vstd::prelude::*;
use crate::profile::model::VpnProfile;
use crate::text::str_eq;

verus! {

/// A user name and password for connecting a profile.
pub struct AuthCredentials {
    pub username: String,
    pub password: String,
}

/// The credentials entered in the connect dialog: given only when the
/// answer is `connect` and neither field is empty.
pub fn auth_dialog_result(response: &str, username: String, password: String) -> (r: Option<
    AuthCredentials,
>)
    ensures
        r is Some <==> (response@ == "connect"@ && username@.len() > 0 && password@.len() > 0),
        r matches Some(c) ==> c.username == username && c.password == password,
{
    if str_eq(response, "connect") && !username.as_str().is_empty() && !password.as_str().is_empty() {
        Some(AuthCredentials { username, password })
    } else {
        None
    }
}

/// Whether the answer to "Save credentials?" was `yes`.
pub fn save_dialog_result(response: &str) -> (save: bool)
    ensures
        save == (response@ == "yes"@),
{
    str_eq(response, "yes")
}

/// The user name entered while importing: kept only when the answer is
/// `save` and the name is not empty.
pub fn import_auth_dialog_result(response: &str, username: String) -> (r: Option<String>)
    ensures
        r is Some <==> (response@ == "save"@ && username@.len() > 0),
        r matches Some(u) ==> u == username,
{
    if str_eq(response, "save") && !username.as_str().is_empty() {
        Some(username)
    } else {
        None
    }
}

/// A profile's saved credentials, when both user name and password are saved.
pub open spec fn saved_credentials_of(p: VpnProfile) -> Option<(Seq<char>, Seq<char>)> {
    match (p.username, p.password) {
        (Some(u), Some(w)) => Some((u@, w@)),
        _ => None,
    }
}

/// The credentials used to connect without asking: those saved in the
/// profile, when it has both a user name and a password.
pub fn saved_credentials(profile: &VpnProfile) -> (r: Option<AuthCredentials>)
    ensures
        match saved_credentials_of(*profile) {
            Some((u, w)) => r matches Some(c) && c.username@ == u && c.password@ == w,
            None => r is None,
        },
{
    match (&profile.username, &profile.password) {
        (Some(u), Some(w)) => Some(AuthCredentials { username: u.clone(), password: w.clone() }),
        _ => None,
    }
}

} // verus!
