//! The main window's list of profiles and its status banner.

use vstd::prelude::*;
use crate::profile::model::VpnProfile;
use crate::profile::auth::saved_credentials_of;
use crate::text::{contains, contains_str, str_eq};

verus! {

/// How the status banner is drawn.
#[derive(PartialEq, Eq, Structural, Clone, Copy, Debug)]
pub enum BannerStyle {
    /// Connected (`success` style).
    Success,
    /// Connecting (`warning` style).
    Warning,
    /// Anything else (`dim-label` style).
    Dim,
}

/// The style of a banner text: `Success` when it mentions `CONNECTED` but
/// not `DIS`, else `Warning` when it mentions `CONNECTING`, else `Dim`.
pub open spec fn banner_style_of(text: Seq<char>) -> BannerStyle {
    if contains(text, "CONNECTED"@) && !contains(text, "DIS"@) {
        BannerStyle::Success
    } else if contains(text, "CONNECTING"@) {
        BannerStyle::Warning
    } else {
        BannerStyle::Dim
    }
}

/// The style the status banner takes for `text`.
pub fn status_banner_style(text: &str) -> (s: BannerStyle)
    ensures
        s == banner_style_of(text@),
{
    if contains_str(text, "CONNECTED") && !contains_str(text, "DIS") {
        BannerStyle::Success
    } else if contains_str(text, "CONNECTING") {
        BannerStyle::Warning
    } else {
        BannerStyle::Dim
    }
}

/// What closing the main window leads to.
#[derive(PartialEq, Eq, Structural, Clone, Copy, Debug)]
pub enum CloseAction {
    /// Hide the window; the application keeps running in the tray.
    Minimize,
    /// Quit the application.
    Quit,
    /// Do nothing.
    Stay,
}

/// The action for the answer to the close dialog (`minimize` or `quit`).
pub fn close_dialog_action(response: &str) -> (a: CloseAction)
    ensures
        a == if response@ == "minimize"@ {
            CloseAction::Minimize
        } else if response@ == "quit"@ {
            CloseAction::Quit
        } else {
            CloseAction::Stay
        },
{
    if str_eq(response, "minimize") {
        CloseAction::Minimize
    } else if str_eq(response, "quit") {
        CloseAction::Quit
    } else {
        CloseAction::Stay
    }
}

/// Whether the answer to "Remove Profile" removes it: only `remove` does.
pub fn delete_dialog_confirms(response: &str) -> (remove: bool)
    ensures
        remove == (response@ == "remove"@),
{
    str_eq(response, "remove")
}

/// The index of the first of `ps[i..]` named `name`.
pub open spec fn first_named(ps: Seq<VpnProfile>, name: Seq<char>, i: int) -> Option<int>
    decreases ps.len() - i,
{
    if i < 0 || i >= ps.len() {
        None
    } else if ps[i].name@ == name {
        Some(i)
    } else {
        first_named(ps, name, i + 1)
    }
}

pub proof fn lemma_first_named_found(ps: Seq<VpnProfile>, name: Seq<char>, i: int)
    requires
        0 <= i,
    ensures
        first_named(ps, name, i) matches Some(k) ==> i <= k < ps.len() && ps[k].name@ == name
            && forall|j: int| i <= j < k ==> #[trigger] ps[j].name@ != name,
        first_named(ps, name, i) is None ==> forall|j: int|
            i <= j < ps.len() ==> #[trigger] ps[j].name@ != name,
    decreases ps.len() - i,
{
    if i < ps.len() && ps[i].name@ != name {
        lemma_first_named_found(ps, name, i + 1);
    }
}

/// Profiles not named `name`.
pub open spec fn not_named(name: Seq<char>) -> spec_fn(VpnProfile) -> bool {
    |p: VpnProfile| p.name@ != name
}

/// `q` is `p` with the given credentials saved.
pub open spec fn with_credentials(
    p: VpnProfile,
    q: VpnProfile,
    username: Seq<char>,
    password: Seq<char>,
) -> bool {
    &&& q.name == p.name
    &&& q.config_path == p.config_path
    &&& q.imported_at == p.imported_at
    &&& q.username matches Some(u) && u@ == username
    &&& q.password matches Some(w) && w@ == password
}

/// The profiles shown in the main window, in import order.
pub struct ProfileList {
    pub profiles: Vec<VpnProfile>,
}

impl ProfileList {
    /// A list holding the loaded profiles.
    pub fn new(profiles: Vec<VpnProfile>) -> (l: Self)
        ensures
            l.profiles@ == profiles@,
    {
        ProfileList { profiles }
    }

    /// Appends a newly imported profile.
    pub fn add_profile(&mut self, profile: VpnProfile)
        ensures
            final(self).profiles@ == old(self).profiles@.push(profile),
    {
        self.profiles.push(profile);
    }

    /// Removes every profile named `name`, keeping the others in order.
    pub fn remove_profile(&mut self, name: &str)
        ensures
            final(self).profiles@ == old(self).profiles@.filter(not_named(name@)),
    {
        let ghost orig = self.profiles@;
        let ghost pred = not_named(name@);
        let mut i: usize = 0;
        let ghost mut k: int = 0;
        while i < self.profiles.len()
            invariant
                0 <= i <= k <= orig.len(),
                pred == not_named(name@),
                self.profiles@.len() == i + (orig.len() - k),
                self.profiles@.take(i as int) == orig.take(k).filter(pred),
                self.profiles@.skip(i as int) == orig.skip(k),
            decreases orig.len() - k,
        {
            proof {
                reveal_with_fuel(Seq::filter, 1);
                assert(orig.take(k + 1).drop_last() == orig.take(k));
                assert(self.profiles@[i as int] == orig.skip(k)[0]);
            }
            if str_eq(self.profiles[i].name.as_str(), name) {
                let ghost before = self.profiles@;
                let _ = self.profiles.remove(i);
                proof {
                    assert(self.profiles@.take(i as int) == before.take(i as int));
                    assert(self.profiles@.skip(i as int) == before.skip(i + 1 as int));
                    assert(orig.skip(k + 1) == orig.skip(k).skip(1));
                    assert(before.skip(i + 1 as int) == before.skip(i as int).skip(1));
                }
            } else {
                proof {
                    let s = self.profiles@;
                    assert(s.take(i + 1 as int) == s.take(i as int).push(s[i as int]));
                    assert(s.skip(i + 1 as int) == s.skip(i as int).skip(1));
                    assert(orig.skip(k + 1) == orig.skip(k).skip(1));
                }
                i = i + 1;
            }
            proof {
                k = k + 1;
            }
        }
        assert(orig.take(orig.len() as int) == orig);
        assert(self.profiles@.take(i as int) == self.profiles@);
    }

    /// Saves credentials in the first profile named `name`; the list is
    /// unchanged when no profile has that name.
    pub fn save_profile_credentials(&mut self, name: &str, username: &str, password: &str)
        ensures
            final(self).profiles@.len() == old(self).profiles@.len(),
            match first_named(old(self).profiles@, name@, 0) {
                Some(k) => {
                    &&& with_credentials(
                        old(self).profiles@[k],
                        final(self).profiles@[k],
                        username@,
                        password@,
                    )
                    &&& forall|j: int|
                        0 <= j < old(self).profiles@.len() && j != k
                            ==> #[trigger] final(self).profiles@[j] == old(self).profiles@[j]
                },
                None => final(self).profiles@ == old(self).profiles@,
            },
    {
        proof {
            lemma_first_named_found(self.profiles@, name@, 0);
        }
        let mut i: usize = 0;
        while i < self.profiles.len()
            invariant
                i <= self.profiles@.len(),
                self.profiles@ == old(self).profiles@,
                forall|j: int| 0 <= j < i ==> #[trigger] self.profiles@[j].name@ != name@,
            decreases self.profiles.len() - i,
        {
            if str_eq(self.profiles[i].name.as_str(), name) {
                let mut p = self.profiles.remove(i);
                p.username = Some(username.to_owned());
                p.password = Some(password.to_owned());
                self.profiles.insert(i, p);
                proof {
                    lemma_first_named_found(old(self).profiles@, name@, 0);
                }
                return;
            }
            i = i + 1;
        }
    }
}


/// Law: after removing a name, no listed profile carries it, and every
/// profile with another name is still listed.
pub proof fn lemma_removed_name_gone(ps: Seq<VpnProfile>, name: Seq<char>)
    ensures
        forall|j: int|
            0 <= j < ps.filter(not_named(name)).len() ==> #[trigger] ps.filter(
                not_named(name),
            )[j].name@ != name,
        forall|j: int|
            0 <= j < ps.len() && ps[j].name@ != name ==> ps.filter(not_named(name)).contains(
                #[trigger] ps[j],
            ),
{
    assert forall|j: int| 0 <= j < ps.filter(not_named(name)).len() implies #[trigger] ps.filter(
        not_named(name),
    )[j].name@ != name by {
        ps.lemma_filter_pred(not_named(name), j);
    }
    assert forall|j: int| 0 <= j < ps.len() && ps[j].name@ != name implies ps.filter(
        not_named(name),
    ).contains(#[trigger] ps[j]) by {
        ps.lemma_filter_contains(not_named(name), j);
    }
}

/// Law: credentials saved for a listed profile are the ones its next
/// connection uses without asking.
pub proof fn lemma_saved_credentials_used(
    before: Seq<VpnProfile>,
    after: Seq<VpnProfile>,
    name: Seq<char>,
    username: Seq<char>,
    password: Seq<char>,
    k: int,
)
    requires
        first_named(before, name, 0) == Some(k),
        with_credentials(before[k], after[k], username, password),
    ensures
        after[k].name@ == name,
        saved_credentials_of(after[k]) == Some((username, password)),
{
    lemma_first_named_found(before, name, 0);
}

} // verus!
