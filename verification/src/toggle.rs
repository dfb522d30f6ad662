//! What happens when the connection switch of a profile is flipped, in the
//! main window's profile rows and in the tray's status panel.
//!
//! The switch handlers start background work and react to its result; the
//! decisions are the functions of [`ProfileToggle`], which answer each
//! event with the list of effects to carry out, in order.

use vstd::prelude::*;
use crate::profile::auth::AuthCredentials;
use crate::profile::model::VpnProfile;
use crate::text::str_concat;

verus! {

/// Where a connection switch is shown.
#[derive(Debug, Clone, Copy, PartialEq, Eq, Structural)]
pub enum ToggleView {
    /// A profile row of the main window (status banner, toasts, statistics).
    Window,
    /// The tray's status panel (status label and statistics box only).
    Panel,
}

/// How a background connect or disconnect ended.
pub enum TaskOutcome {
    /// It succeeded.
    Succeeded,
    /// It failed with this message.
    Failed(String),
    /// The background task itself failed.
    Crashed,
}

/// One thing to do in answer to an event.
pub enum ToggleEffect {
    /// Move the switch without running its handler.
    SetSwitch(bool),
    /// Show this connection status text.
    Status(String),
    /// Show a toast with this text.
    Toast(String),
    /// Ask for credentials, prefilled with what is saved.
    AskCredentials { username: Option<String>, password: Option<String> },
    /// Connect in the background with these credentials.
    Connect(AuthCredentials),
    /// Disconnect in the background.
    Disconnect,
    /// Show (and in a row, restart) the traffic statistics.
    ShowStats,
    /// Hide the traffic statistics.
    HideStats,
    /// Offer to save these credentials.
    OfferSave(AuthCredentials),
    /// Save these credentials in the profile.
    SaveCredentials(AuthCredentials),
}

/// The meaning of an effect, over text.
pub enum EffectView {
    SetSwitch(bool),
    Status(Seq<char>),
    Toast(Seq<char>),
    AskCredentials(Option<Seq<char>>, Option<Seq<char>>),
    Connect(Seq<char>, Seq<char>),
    Disconnect,
    ShowStats,
    HideStats,
    OfferSave(Seq<char>, Seq<char>),
    SaveCredentials(Seq<char>, Seq<char>),
}

/// The text of an optional string.
pub open spec fn opt_view(o: Option<String>) -> Option<Seq<char>> {
    match o {
        Some(s) => Some(s@),
        None => None,
    }
}

impl View for ToggleEffect {
    type V = EffectView;

    open spec fn view(&self) -> EffectView {
        match *self {
            ToggleEffect::SetSwitch(b) => EffectView::SetSwitch(b),
            ToggleEffect::Status(s) => EffectView::Status(s@),
            ToggleEffect::Toast(s) => EffectView::Toast(s@),
            ToggleEffect::AskCredentials { username, password } => EffectView::AskCredentials(
                opt_view(username),
                opt_view(password),
            ),
            ToggleEffect::Connect(c) => EffectView::Connect(c.username@, c.password@),
            ToggleEffect::Disconnect => EffectView::Disconnect,
            ToggleEffect::ShowStats => EffectView::ShowStats,
            ToggleEffect::HideStats => EffectView::HideStats,
            ToggleEffect::OfferSave(c) => EffectView::OfferSave(c.username@, c.password@),
            ToggleEffect::SaveCredentials(c) => EffectView::SaveCredentials(
                c.username@,
                c.password@,
            ),
        }
    }
}

/// The meanings of a list of effects.
pub open spec fn effects_view(v: Seq<ToggleEffect>) -> Seq<EffectView> {
    v.map_values(|e: ToggleEffect| e@)
}

/// The switch of one profile, with what was saved for it when the switch
/// was created.
pub struct ProfileToggle {
    pub view: ToggleView,
    pub profile_name: String,
    pub saved_username: Option<String>,
    pub saved_password: Option<String>,
}

impl ProfileToggle {
    /// The profile had both a user name and a password saved.
    pub open spec fn has_saved(self) -> bool {
        self.saved_username is Some && self.saved_password is Some
    }

    /// Effects of flipping the switch.
    pub open spec fn switched_effects(self, active: bool) -> Seq<EffectView> {
        if !active {
            seq![EffectView::Disconnect]
        } else if self.has_saved() {
            seq![
                EffectView::Status("CONNECTING..."@),
                EffectView::Connect(self.saved_username->0@, self.saved_password->0@),
            ]
        } else {
            seq![EffectView::AskCredentials(opt_view(self.saved_username), opt_view(self.saved_password))]
        }
    }

    /// Effects of the answer to the credentials dialog.
    pub open spec fn entered_effects(self, creds: Option<(Seq<char>, Seq<char>)>) -> Seq<EffectView> {
        match creds {
            Some((u, w)) => seq![EffectView::Status("CONNECTING..."@), EffectView::Connect(u, w)],
            None => seq![EffectView::SetSwitch(false)],
        }
    }

    /// Effects of the end of a background connect with credentials `(u, w)`.
    pub open spec fn connected_effects(self, u: Seq<char>, w: Seq<char>, outcome: TaskOutcome) -> Seq<
        EffectView,
    > {
        match (self.view, outcome) {
            (ToggleView::Window, TaskOutcome::Succeeded) => {
                let base = seq![
                    EffectView::SetSwitch(true),
                    EffectView::Status("CONNECTED"@),
                    EffectView::Toast("Connected to "@ + self.profile_name@),
                    EffectView::ShowStats,
                ];
                if self.has_saved() {
                    base
                } else {
                    base.push(EffectView::OfferSave(u, w))
                }
            },
            (ToggleView::Window, TaskOutcome::Failed(e)) => seq![
                EffectView::SetSwitch(false),
                EffectView::Status("DISCONNECTED"@),
                EffectView::Toast("Failed: "@ + e@),
            ],
            (ToggleView::Window, TaskOutcome::Crashed) => seq![
                EffectView::SetSwitch(false),
                EffectView::Status("DISCONNECTED"@),
            ],
            (ToggleView::Panel, TaskOutcome::Succeeded) => seq![
                EffectView::SetSwitch(true),
                EffectView::Status("CONNECTED"@),
                EffectView::ShowStats,
            ],
            (ToggleView::Panel, TaskOutcome::Failed(_)) => seq![
                EffectView::SetSwitch(false),
                EffectView::Status("DISCONNECTED"@),
            ],
            (ToggleView::Panel, TaskOutcome::Crashed) => seq![EffectView::SetSwitch(false)],
        }
    }

    /// Effects of the end of a background disconnect.
    pub open spec fn disconnected_effects(self, outcome: TaskOutcome) -> Seq<EffectView> {
        match (self.view, outcome) {
            (ToggleView::Window, TaskOutcome::Succeeded) => seq![
                EffectView::SetSwitch(false),
                EffectView::Status("DISCONNECTED"@),
                EffectView::Toast("Disconnected from "@ + self.profile_name@),
                EffectView::HideStats,
            ],
            (ToggleView::Window, TaskOutcome::Failed(e)) => seq![
                EffectView::SetSwitch(true),
                EffectView::Toast("Disconnect failed: "@ + e@),
            ],
            (ToggleView::Panel, TaskOutcome::Succeeded) => seq![
                EffectView::SetSwitch(false),
                EffectView::Status("DISCONNECTED"@),
                EffectView::HideStats,
            ],
            (ToggleView::Panel, TaskOutcome::Failed(_)) => seq![EffectView::SetSwitch(true)],
            (_, TaskOutcome::Crashed) => Seq::<EffectView>::empty(),
        }
    }

    /// Effects of the answer to the offer to save credentials `(u, w)`.
    pub open spec fn save_effects(self, u: Seq<char>, w: Seq<char>, save: bool) -> Seq<EffectView> {
        if save {
            seq![EffectView::SaveCredentials(u, w), EffectView::Toast("Credentials saved"@)]
        } else {
            Seq::<EffectView>::empty()
        }
    }

    /// Effects of showing a profile that is already connected or not.
    pub open spec fn shown_effects(self, connected: bool) -> Seq<EffectView> {
        if !connected {
            Seq::<EffectView>::empty()
        } else if self.view == ToggleView::Window {
            seq![EffectView::SetSwitch(true), EffectView::ShowStats]
        } else {
            seq![EffectView::SetSwitch(true)]
        }
    }

    /// The switch of `profile`, shown in `view`.
    pub fn for_profile(profile: &VpnProfile, view: ToggleView) -> (t: Self)
        ensures
            t.view == view,
            t.profile_name == profile.name,
            t.saved_username == profile.username,
            t.saved_password == profile.password,
    {
        ProfileToggle {
            view,
            profile_name: profile.name.clone(),
            saved_username: profile.username.clone(),
            saved_password: profile.password.clone(),
        }
    }

    /// The profile is shown; `connected` tells whether it already runs.
    pub fn shown(&self, connected: bool) -> (e: Vec<ToggleEffect>)
        ensures
            effects_view(e@) == self.shown_effects(connected),
    {
        let mut e: Vec<ToggleEffect> = Vec::new();
        if connected {
            e.push(ToggleEffect::SetSwitch(true));
            if self.view == ToggleView::Window {
                e.push(ToggleEffect::ShowStats);
            }
        }
        assert(effects_view(e@) =~= self.shown_effects(connected));
        e
    }

    /// The switch was flipped by the user.
    pub fn switched(&self, active: bool) -> (e: Vec<ToggleEffect>)
        ensures
            effects_view(e@) == self.switched_effects(active),
            !active ==> e@.len() == 1 && e@[0] is Disconnect,
    {
        let mut e: Vec<ToggleEffect> = Vec::new();
        if !active {
            e.push(ToggleEffect::Disconnect);
        } else {
            match (&self.saved_username, &self.saved_password) {
                (Some(u), Some(w)) => {
                    e.push(ToggleEffect::Status("CONNECTING...".to_owned()));
                    e.push(
                        ToggleEffect::Connect(
                            AuthCredentials { username: u.clone(), password: w.clone() },
                        ),
                    );
                },
                _ => {
                    e.push(
                        ToggleEffect::AskCredentials {
                            username: self.saved_username.clone(),
                            password: self.saved_password.clone(),
                        },
                    );
                },
            }
        }
        assert(effects_view(e@) =~= self.switched_effects(active));
        e
    }

    /// The credentials dialog was answered (`None`: cancelled or incomplete).
    pub fn credentials_entered(&self, creds: Option<AuthCredentials>) -> (e: Vec<ToggleEffect>)
        ensures
            effects_view(e@) == self.entered_effects(
                match creds {
                    Some(c) => Some((c.username@, c.password@)),
                    None => None,
                },
            ),
    {
        let mut e: Vec<ToggleEffect> = Vec::new();
        match creds {
            Some(c) => {
                e.push(ToggleEffect::Status("CONNECTING...".to_owned()));
                e.push(ToggleEffect::Connect(c));
            },
            None => {
                e.push(ToggleEffect::SetSwitch(false));
            },
        }
        assert(effects_view(e@) =~= self.entered_effects(
            match creds {
                Some(c) => Some((c.username@, c.password@)),
                None => None,
            },
        ));
        e
    }

    /// A background connect with `creds` ended.
    pub fn connect_finished(&self, creds: AuthCredentials, outcome: TaskOutcome) -> (e: Vec<
        ToggleEffect,
    >)
        ensures
            effects_view(e@) == self.connected_effects(creds.username@, creds.password@, outcome),
    {
        let ghost u = creds.username@;
        let ghost w = creds.password@;
        let ghost o = outcome;
        let mut e: Vec<ToggleEffect> = Vec::new();
        match outcome {
            TaskOutcome::Succeeded => {
                e.push(ToggleEffect::SetSwitch(true));
                e.push(ToggleEffect::Status("CONNECTED".to_owned()));
                if self.view == ToggleView::Window {
                    e.push(
                        ToggleEffect::Toast(str_concat("Connected to ", self.profile_name.as_str())),
                    );
                }
                e.push(ToggleEffect::ShowStats);
                if self.view == ToggleView::Window && !(self.saved_username.is_some()
                    && self.saved_password.is_some()) {
                    e.push(ToggleEffect::OfferSave(creds));
                }
            },
            TaskOutcome::Failed(msg) => {
                e.push(ToggleEffect::SetSwitch(false));
                e.push(ToggleEffect::Status("DISCONNECTED".to_owned()));
                if self.view == ToggleView::Window {
                    e.push(ToggleEffect::Toast(str_concat("Failed: ", msg.as_str())));
                }
            },
            TaskOutcome::Crashed => {
                e.push(ToggleEffect::SetSwitch(false));
                if self.view == ToggleView::Window {
                    e.push(ToggleEffect::Status("DISCONNECTED".to_owned()));
                }
            },
        }
        assert(effects_view(e@) =~= self.connected_effects(u, w, o));
        e
    }

    /// A background disconnect ended.
    pub fn disconnect_finished(&self, outcome: TaskOutcome) -> (e: Vec<ToggleEffect>)
        ensures
            effects_view(e@) == self.disconnected_effects(outcome),
    {
        let ghost o = outcome;
        let mut e: Vec<ToggleEffect> = Vec::new();
        match outcome {
            TaskOutcome::Succeeded => {
                e.push(ToggleEffect::SetSwitch(false));
                e.push(ToggleEffect::Status("DISCONNECTED".to_owned()));
                if self.view == ToggleView::Window {
                    e.push(
                        ToggleEffect::Toast(str_concat("Disconnected from ", self.profile_name.as_str())),
                    );
                }
                e.push(ToggleEffect::HideStats);
            },
            TaskOutcome::Failed(msg) => {
                e.push(ToggleEffect::SetSwitch(true));
                if self.view == ToggleView::Window {
                    e.push(ToggleEffect::Toast(str_concat("Disconnect failed: ", msg.as_str())));
                }
            },
            TaskOutcome::Crashed => {},
        }
        assert(effects_view(e@) =~= self.disconnected_effects(o));
        e
    }

    /// The offer to save `creds` was answered.
    pub fn save_answered(&self, creds: AuthCredentials, save: bool) -> (e: Vec<ToggleEffect>)
        ensures
            effects_view(e@) == self.save_effects(creds.username@, creds.password@, save),
    {
        let ghost u = creds.username@;
        let ghost w = creds.password@;
        let mut e: Vec<ToggleEffect> = Vec::new();
        if save {
            e.push(ToggleEffect::SaveCredentials(creds));
            e.push(ToggleEffect::Toast("Credentials saved".to_owned()));
        }
        assert(effects_view(e@) =~= self.save_effects(u, w, save));
        e
    }
}


/// Law: turning a switch off, in a window row or in the panel, whatever is
/// saved for the profile, does exactly one thing: disconnect it.
pub proof fn lemma_switch_off_disconnects(t: ProfileToggle)
    ensures
        t.switched_effects(false).len() == 1,
        t.switched_effects(false)[0] == EffectView::Disconnect,
        forall|v: ToggleView|
            #![trigger (ProfileToggle { view: v, ..t }).switched_effects(false)]
            (ProfileToggle { view: v, ..t }).switched_effects(false) == t.switched_effects(false),
{
}

/// Law: when a background connect ends, the first effect sets the switch,
/// on exactly when the connect succeeded.
pub proof fn lemma_switch_follows_connect(
    t: ProfileToggle,
    u: Seq<char>,
    w: Seq<char>,
    outcome: TaskOutcome,
)
    ensures
        t.connected_effects(u, w, outcome).len() > 0,
        t.connected_effects(u, w, outcome)[0] == EffectView::SetSwitch(outcome is Succeeded),
{
}

/// Law: saving credentials is offered only in a window row, only after a
/// successful connect, and only when none were saved; then it offers the
/// credentials just used.
pub proof fn lemma_offer_save_only_after_success(
    t: ProfileToggle,
    u: Seq<char>,
    w: Seq<char>,
    outcome: TaskOutcome,
    i: int,
)
    requires
        0 <= i < t.connected_effects(u, w, outcome).len(),
        t.connected_effects(u, w, outcome)[i] is OfferSave,
    ensures
        outcome is Succeeded,
        t.view == ToggleView::Window,
        !t.has_saved(),
        t.connected_effects(u, w, outcome)[i] == EffectView::OfferSave(u, w),
{
}

/// Law: a profile with saved credentials connects with them without asking;
/// one without asks, and connects only with what the dialog returned.
pub proof fn lemma_credentials_for_connect(t: ProfileToggle, creds: Option<(Seq<char>, Seq<char>)>)
    ensures
        t.has_saved() ==> t.switched_effects(true).last() == EffectView::Connect(
            t.saved_username->0@,
            t.saved_password->0@,
        ),
        !t.has_saved() ==> t.switched_effects(true) == seq![
            EffectView::AskCredentials(opt_view(t.saved_username), opt_view(t.saved_password)),
        ],
        forall|i: int|
            0 <= i < t.entered_effects(creds).len() && #[trigger] t.entered_effects(creds)[i] is Connect
                ==> creds == Some((t.entered_effects(creds)[i]->Connect_0, t.entered_effects(creds)[i]->Connect_1)),
{
}

} // verus!
