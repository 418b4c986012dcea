//! How the outcomes of unlocking, wiping and editing a container
//! change the state, and the status pill that names the active
//! container.

use vstd::prelude::*;
use crate::app::{
    App, ProfileSource, hydrate_from_inner, hydrated, opt_profile_view, saved_path_after,
    server_label_spec, start_add_inner_profile, started_add_inner,
};
use crate::input::{TextInput, empty_input, empty_masked_input};
use crate::profile::{PlainProfile, PlainProfileView, ProfileKek, ProfileSet, position_of_alias};
use crate::screens::{InnerAliasState, Screen};
use crate::text::from_str;
use crate::widgets::{AgentPill, AgentPillView};
use crate::wizard::{ManageStage, PassphraseStage, WelcomeItem, WizardMode, opt_str_view};

verus! {

/// The message `prefix` followed by `reason`.
pub open spec fn prefixed(prefix: Seq<char>, reason: Seq<char>) -> Seq<char> {
    prefix + reason
}

fn join(prefix: &str, reason: &str) -> (s: String)
    ensures
        s@ == prefixed(prefix@, reason@),
{
    let mut s = from_str(prefix);
    s.append(reason);
    s
}

/// The connection `p` was unlocked and is now the active one: the
/// wizard takes it over and the manage screen opens.
#[verifier::opaque]
pub open spec fn unlocked_single(a: App, b: App, p: PlainProfile) -> bool {
    exists|m: App|
        {
            &&& hydrated(a, m, p@)
            &&& opt_str_view(b.saved_path) == saved_path_after(a)
            &&& b.manage_passphrase_input@ == empty_masked_input()
            &&& b == (App {
                saved_path: b.saved_path,
                unlocked_profile: Some(p),
                cached_source: Some(a.unlock_source),
                manage_stage: ManageStage::Viewing,
                manage_unlock_error: None,
                screen: Screen::ProfileManage,
                manage_passphrase_input: b.manage_passphrase_input,
                ..m
            })
        }
}

/// Row of `default` in `set`, else the first row.
pub open spec fn default_row(set: Seq<PlainProfileView>, default: Option<String>) -> usize {
    match default {
        Some(d) => match position_of_alias(set, d@) {
            Some(i) => i as usize,
            None => 0,
        },
        None => 0,
    }
}

/// The container was unlocked to add a connection: it stays unlocked
/// with its key, and the wizard starts afresh.
#[verifier::opaque]
pub open spec fn unlocked_for_adding(
    a: App,
    b: App,
    set: ProfileSet,
    kek: ProfileKek,
    default: Option<String>,
) -> bool {
    exists|m: App|
        {
            &&& m.manage_passphrase_input@ == empty_masked_input()
            &&& m == (App {
                unlocked_set: Some(set),
                unlocked_kek: Some(kek),
                picker_default_alias: default,
                cached_source: Some(a.unlock_source),
                manage_passphrase_input: m.manage_passphrase_input,
                manage_unlock_error: None,
                ..a
            })
            &&& started_add_inner(m, b)
        }
}

/// The container was unlocked: the picker opens on the remembered
/// default connection, else on the first.
#[verifier::opaque]
pub open spec fn unlocked_to_picker(
    a: App,
    b: App,
    set: ProfileSet,
    kek: ProfileKek,
    default: Option<String>,
) -> bool {
    &&& b.manage_passphrase_input@ == empty_masked_input()
    &&& b == (App {
        picker_index: default_row(set@, default),
        picker_default_alias: default,
        unlocked_set: Some(set),
        unlocked_kek: Some(kek),
        cached_source: Some(a.unlock_source),
        manage_stage: ManageStage::Viewing,
        manage_unlock_error: None,
        screen: Screen::ContainerPicker,
        manage_passphrase_input: b.manage_passphrase_input,
        ..a
    })
}

/// After unlocking a container: the wizard when a connection is being
/// added, the picker otherwise.
pub open spec fn unlocked_set(a: App, b: App, set: ProfileSet, kek: ProfileKek, default: Option<String>) -> bool {
    if a.wizard_mode == WizardMode::AddInnerProfile {
        unlocked_for_adding(a, b, set, kek, default)
    } else {
        unlocked_to_picker(a, b, set, kek, default)
    }
}

/// The connection `alias` was appended to the container, which became
/// `set`: it is the active connection, the wizard takes it over, and
/// the Done screen confirms it.
#[verifier::opaque]
pub open spec fn inner_added(a: App, b: App, set: ProfileSet, alias: Seq<char>) -> bool {
    let sel = set@[position_of_alias(set@, alias).unwrap()];
    exists|m: App|
        {
            &&& hydrated(App { unlocked_set: Some(set), ..a }, m, sel)
            &&& opt_profile_view(b.unlocked_profile) == Some(sel)
            &&& b.inner_alias_input@ == empty_input()
            &&& opt_str_view(b.saved_path) == saved_path_after(a)
            &&& b == (App {
                unlocked_profile: b.unlocked_profile,
                inner_alias_input: b.inner_alias_input,
                inner_alias_state: InnerAliasState::Editing,
                inner_alias_error: None,
                saved_path: b.saved_path,
                manage_stage: ManageStage::Viewing,
                screen: Screen::Done,
                ..m
            })
        }
}

/// The connection `deleted` was removed and the container became
/// `set`: the remembered default is forgotten if it was that
/// connection, and the picker opens on the default (else the first).
pub open spec fn inner_deleted(a: App, b: App, set: ProfileSet, deleted: Seq<char>) -> bool {
    let default = match a.picker_default_alias {
        Some(d) => if d@ == deleted {
            None
        } else {
            Some(d)
        },
        None => None,
    };
    b == (App {
        picker_default_alias: default,
        picker_index: default_row(set@, default),
        unlocked_set: Some(set),
        unlocked_profile: None,
        manage_unlock_error: None,
        manage_stage: ManageStage::Viewing,
        screen: Screen::ContainerPicker,
        ..a
    })
}

/// The container files are gone: nothing is unlocked or remembered,
/// and the welcome menu offers to create one.
pub open spec fn wiped(a: App, b: App) -> bool {
    b == (App {
        unlocked_profile: None,
        cached_source: None,
        cached_session_token: None,
        post_login_target: None,
        saved_path: None,
        local_exists: false,
        remote_exists: false,
        manage_show_secret: false,
        manage_stage: ManageStage::Locked,
        welcome_item: WelcomeItem::Configure,
        screen: Screen::Welcome,
        ..a
    })
}

fn unlock_single(a: App, profile: PlainProfile) -> (b: App)
    ensures
        unlocked_single(a, b, profile),
{
    let saved = a.saved_path_at_active();
    let src = a.unlock_source;
    let ghost gp = profile;
    let m = hydrate_from_inner(a, &profile);
    let ghost gm = m;
    let b = App {
        saved_path: saved,
        unlocked_profile: Some(profile),
        cached_source: Some(src),
        manage_stage: ManageStage::Viewing,
        manage_unlock_error: None,
        screen: Screen::ProfileManage,
        manage_passphrase_input: TextInput::masked(),
        ..m
    };
    proof {
        reveal(unlocked_single);
        assert(hydrated(a, gm, gp@));
    }
    b
}

fn unlock_for_adding(a: App, set: ProfileSet, kek: ProfileKek, default: Option<String>) -> (b: App)
    ensures
        unlocked_for_adding(a, b, set, kek, default),
{
    let src = a.unlock_source;
    let m = App {
        unlocked_set: Some(set),
        unlocked_kek: Some(kek),
        picker_default_alias: default,
        cached_source: Some(src),
        manage_passphrase_input: TextInput::masked(),
        manage_unlock_error: None,
        ..a
    };
    let ghost gm = m;
    let b = start_add_inner_profile(m);
    proof {
        reveal(unlocked_for_adding);
        assert(started_add_inner(gm, b));
    }
    b
}

fn default_row_exec(set: &ProfileSet, default: &Option<String>) -> (r: usize)
    ensures
        r == default_row(set@, *default),
{
    match default {
        Some(d) => match set.position_of(d.as_str()) {
            Some(i) => i,
            None => 0,
        },
        None => 0,
    }
}

fn unlock_to_picker(a: App, set: ProfileSet, kek: ProfileKek, default: Option<String>) -> (b: App)
    ensures
        unlocked_to_picker(a, b, set, kek, default),
{
    proof {
        reveal(unlocked_to_picker);
    }
    let row = default_row_exec(&set, &default);
    let src = a.unlock_source;
    App {
        picker_index: row,
        picker_default_alias: default,
        unlocked_set: Some(set),
        unlocked_kek: Some(kek),
        cached_source: Some(src),
        manage_stage: ManageStage::Viewing,
        manage_unlock_error: None,
        screen: Screen::ContainerPicker,
        manage_passphrase_input: TextInput::masked(),
        ..a
    }
}

fn add_inner(a: App, set: ProfileSet, alias: String) -> (b: App)
    requires
        position_of_alias(set@, alias@) is Some,
    ensures
        inner_added(a, b, set, alias@),
{
    let profile = match set.find_by_alias(alias.as_str()) {
        Some(p) => p.duplicate(),
        None => {
            proof {
                assert(false);
            }
            return a;
        },
    };
    let saved = a.saved_path_at_active();
    let ghost gset = set;
    let a1 = App { unlocked_set: Some(set), ..a };
    let ghost ga1 = a1;
    let m = hydrate_from_inner(a1, &profile);
    let ghost gm = m;
    let b = App {
        unlocked_profile: Some(profile),
        inner_alias_input: TextInput::new(),
        inner_alias_state: InnerAliasState::Editing,
        inner_alias_error: None,
        saved_path: saved,
        manage_stage: ManageStage::Viewing,
        screen: Screen::Done,
        ..m
    };
    proof {
        reveal(inner_added);
        assert(ga1 == (App { unlocked_set: Some(gset), ..a }));
        assert(hydrated(ga1, gm, gset@[position_of_alias(gset@, alias@).unwrap()]));
    }
    b
}

impl App {
    /// Unlocking gave the single connection `profile`.
    pub fn apply_unlock_done(&mut self, profile: PlainProfile)
        ensures
            unlocked_single(*old(self), *final(self), profile),
    {
        let a = self.take_out();
        *self = unlock_single(a, profile);
    }

    /// Unlocking gave the container `set` and its key; `default_alias`
    /// is the connection last used.
    pub fn apply_unlock_set_done(&mut self, set: ProfileSet, kek: ProfileKek, default_alias: Option<String>)
        ensures
            unlocked_set(*old(self), *final(self), set, kek, default_alias),
    {
        let a = self.take_out();
        *self = if a.wizard_mode == WizardMode::AddInnerProfile {
            unlock_for_adding(a, set, kek, default_alias)
        } else {
            unlock_to_picker(a, set, kek, default_alias)
        };
    }

    /// Decrypting gave the container `set` and its key: a container with
    /// no profile is refused as empty, else it is opened as
    /// `apply_unlock_set_done` does.
    pub fn apply_unlock_loaded(&mut self, set: ProfileSet, kek: ProfileKek, default_alias: Option<String>)
        ensures
            if set.profiles@.len() == 0 {
                &&& *final(self) == (App {
                    manage_stage: ManageStage::Locked,
                    manage_unlock_error: final(self).manage_unlock_error,
                    ..*old(self)
                })
                &&& final(self).manage_unlock_error matches Some(e) && e@ == "profile container is empty"@
            } else {
                unlocked_set(*old(self), *final(self), set, kek, default_alias)
            },
    {
        if set.profiles.len() == 0 {
            self.apply_unlock_failed(from_str("profile container is empty"));
        } else {
            self.apply_unlock_set_done(set, kek, default_alias);
        }
    }

    /// Unlocking failed: the prompt shows why.
    pub fn apply_unlock_failed(&mut self, reason: String)
        ensures
            *final(self) == (App {
                manage_stage: ManageStage::Locked,
                manage_unlock_error: Some(reason),
                ..*old(self)
            }),
    {
        let a = self.take_out();
        *self = App { manage_stage: ManageStage::Locked, manage_unlock_error: Some(reason), ..a };
    }

    /// The container files were deleted.
    pub fn apply_wipe_done(&mut self)
        ensures
            wiped(*old(self), *final(self)),
    {
        let a = self.take_out();
        *self = App {
            unlocked_profile: None,
            cached_source: None,
            cached_session_token: None,
            post_login_target: None,
            saved_path: None,
            local_exists: false,
            remote_exists: false,
            manage_show_secret: false,
            manage_stage: ManageStage::Locked,
            welcome_item: WelcomeItem::Configure,
            screen: Screen::Welcome,
            ..a
        };
    }

    /// Deleting the files failed.
    pub fn apply_wipe_failed(&mut self, reason: String)
        ensures
            opt_str_view(final(self).manage_unlock_error) == Some(prefixed("wipe failed: "@, reason@)),
            *final(self) == (App {
                manage_stage: ManageStage::Viewing,
                manage_unlock_error: final(self).manage_unlock_error,
                ..*old(self)
            }),
    {
        let a = self.take_out();
        let msg = join("wipe failed: ", reason.as_str());
        *self = App { manage_stage: ManageStage::Viewing, manage_unlock_error: Some(msg), ..a };
    }

    /// The connection `active_alias` was appended; the container is now
    /// `new_set`, which holds it.
    pub fn apply_inner_added(&mut self, new_set: ProfileSet, active_alias: String)
        requires
            position_of_alias(new_set@, active_alias@) is Some,
        ensures
            inner_added(*old(self), *final(self), new_set, active_alias@),
    {
        let a = self.take_out();
        *self = add_inner(a, new_set, active_alias);
    }

    /// Appending the connection failed.
    pub fn apply_inner_failed(&mut self, reason: String)
        ensures
            *final(self) == (App {
                inner_alias_state: InnerAliasState::Failed,
                inner_alias_error: Some(reason),
                ..*old(self)
            }),
    {
        let a = self.take_out();
        *self = App { inner_alias_state: InnerAliasState::Failed, inner_alias_error: Some(reason), ..a };
    }

    /// The connection `deleted_alias` was removed; the container is now
    /// `new_set`.
    pub fn apply_inner_deleted(&mut self, new_set: ProfileSet, deleted_alias: String)
        ensures
            inner_deleted(*old(self), *final(self), new_set, deleted_alias@),
    {
        let a = self.take_out();
        let forget = match &a.picker_default_alias {
            Some(d) => crate::text::str_eq(d.as_str(), deleted_alias.as_str()),
            None => false,
        };
        let default = if forget {
            None
        } else {
            a.picker_default_alias
        };
        let row = default_row_exec(&new_set, &default);
        *self = App {
            picker_default_alias: default,
            picker_index: row,
            unlocked_set: Some(new_set),
            unlocked_profile: None,
            manage_unlock_error: None,
            manage_stage: ManageStage::Viewing,
            screen: Screen::ContainerPicker,
            ..a
        };
    }

    /// Removing the connection failed.
    pub fn apply_inner_delete_failed(&mut self, reason: String)
        ensures
            opt_str_view(final(self).manage_unlock_error) == Some(prefixed("delete failed: "@, reason@)),
            *final(self) == (App {
                manage_stage: ManageStage::Viewing,
                manage_unlock_error: final(self).manage_unlock_error,
                ..*old(self)
            }),
    {
        let a = self.take_out();
        let msg = join("delete failed: ", reason.as_str());
        *self = App { manage_stage: ManageStage::Viewing, manage_unlock_error: Some(msg), ..a };
    }
}

/// The status pill: the unlocked connection and where it lives; while
/// a connection is being added, the container alone; after the wizard
/// saved, the pushed alias (else the user name) in the kind of
/// container the wizard made; otherwise no profile.
pub open spec fn agent_pill_spec(a: App) -> AgentPillView {
    let server = server_label_spec(a.api_base@);
    match a.unlocked_profile {
        Some(p) => match a.unlock_source {
            ProfileSource::Local => AgentPillView::Local { alias: p.alias@ },
            ProfileSource::Remote => AgentPillView::Remote { server: server, alias: p.alias@ },
        },
        None => if a.wizard_mode == WizardMode::AddInnerProfile && a.unlocked_set is Some {
            match a.unlock_source {
                ProfileSource::Local => AgentPillView::Local { alias: Seq::empty() },
                ProfileSource::Remote => AgentPillView::Remote { server: server, alias: Seq::empty() },
            }
        } else if a.saved_path is Some || a.passphrase_stage is Saved {
            let alias = match a.pushed_summary {
                Some(s) => s.alias@,
                None => a.state.username@,
            };
            match a.wizard_mode {
                WizardMode::CreateRemote => AgentPillView::Remote { server: server, alias: alias },
                _ => AgentPillView::Local { alias: alias },
            }
        } else {
            AgentPillView::NoProfile
        },
    }
}

impl App {
    /// The status pill for the title bar.
    pub fn agent_pill(&self) -> (p: AgentPill)
        ensures
            p@ == agent_pill_spec(*self),
    {
        match &self.unlocked_profile {
            Some(p) => {
                return match self.unlock_source {
                    ProfileSource::Local => AgentPill::Local { alias: p.alias.clone() },
                    ProfileSource::Remote => AgentPill::Remote {
                        server: self.server_label(),
                        alias: p.alias.clone(),
                    },
                };
            },
            None => {},
        }
        if self.wizard_mode == WizardMode::AddInnerProfile && self.unlocked_set.is_some() {
            return match self.unlock_source {
                ProfileSource::Local => AgentPill::Local { alias: String::new() },
                ProfileSource::Remote => AgentPill::Remote {
                    server: self.server_label(),
                    alias: String::new(),
                },
            };
        }
        let saved_stage = match &self.passphrase_stage {
            PassphraseStage::Saved(_) => true,
            _ => false,
        };
        if self.saved_path.is_some() || saved_stage {
            let alias = match &self.pushed_summary {
                Some(s) => s.alias.clone(),
                None => self.state.username.clone(),
            };
            return match self.wizard_mode {
                WizardMode::CreateRemote => AgentPill::Remote { server: self.server_label(), alias },
                _ => AgentPill::Local { alias },
            };
        }
        AgentPill::NoProfile
    }
}

} // verus!
