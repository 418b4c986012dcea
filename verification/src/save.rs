//! Building the inner profile the wizard saves, and the container edits
//! of the manage screens: adding an inner profile to the unlocked
//! container and removing one from it. Encrypting and writing the
//! result is left to the caller.

use vstd::prelude::*;
use crate::app::App;
use crate::clock::unix_time;
use crate::profile::{
    lemma_position_of_alias, position_of_alias, ProfileKek, NextcloudAuthKind, NextcloudConnection, OAuthConnection, OAuthConnectionView,
    PlainProfile, PlainProfileView, ProfileSet, ProviderProfile, ProviderProfileView,
};
use crate::text::{
    char_count, clone_string, decimal, decimal_spec, empty_string, from_str, str_eq, string_chars, string_push,
};
use crate::wizard::{
    DeviceSetupView, DropboxSetupState, DropboxSetupView, GoogleDriveSetupState, OneDriveSetupState,
    ProviderKind, WizardState, WizardStateView,
};

verus! {

/// Index of the first `@` at or after `i`, or the length when none.
pub open spec fn first_at_from(s: Seq<char>, i: nat) -> nat
    decreases s.len() - i,
{
    if i >= s.len() {
        s.len()
    } else if s[i as int] == '@' {
        i
    } else {
        first_at_from(s, i + 1)
    }
}

/// The part of an e-mail address before its first `@` (all of it when
/// there is none).
pub open spec fn local_part(s: Seq<char>) -> Seq<char> {
    s.take(first_at_from(s, 0) as int)
}

/// The text of `s` before its first `@`.
pub fn email_local_part(s: &str) -> (r: String)
    ensures
        r@ == local_part(s@),
{
    let chars = string_chars(s);
    let n = chars.len();
    let mut i: usize = 0;
    while i < n && chars[i] != '@'
        invariant
            i <= n,
            n == s@.len(),
            chars@ == s@,
            first_at_from(s@, 0) == first_at_from(s@, i as nat),
        decreases n - i,
    {
        i = i + 1;
    }
    assert(first_at_from(s@, i as nat) == i);
    let mut r = empty_string();
    let mut j: usize = 0;
    while j < i
        invariant
            j <= i <= n,
            chars@ == s@,
            n == s@.len(),
            r@ == s@.take(j as int),
        decreases i - j,
    {
        string_push(&mut r, chars[j]);
        assert(s@.take(j as int).push(s@[j as int]) =~= s@.take(j + 1));
        j = j + 1;
    }
    r
}

/// The alias a freshly set up container is saved under: the one picked
/// on the alias screen when there is a non-empty one, else the WebDAV
/// user name (Nextcloud) or the local part of the account's e-mail
/// (the OAuth providers).
pub open spec fn save_alias_spec(
    st: WizardStateView,
    gd: DeviceSetupView,
    od: DeviceSetupView,
    db: DropboxSetupView,
) -> Seq<char> {
    match st.alias_override {
        Some(a) if a.len() > 0 => a,
        _ => match st.provider_kind {
            ProviderKind::Nextcloud => st.username,
            ProviderKind::GoogleDrive => local_part(gd.user_email),
            ProviderKind::OneDrive => local_part(od.user_email),
            ProviderKind::Dropbox => local_part(db.user_email),
        },
    }
}

/// The alias the wizard saves a new container under.
pub fn save_alias(
    state: &WizardState,
    gdrive_setup: &GoogleDriveSetupState,
    onedrive_setup: &OneDriveSetupState,
    dropbox_setup: &DropboxSetupState,
) -> (r: String)
    ensures
        r@ == save_alias_spec(state@, gdrive_setup@, onedrive_setup@, dropbox_setup@),
{
    match &state.alias_override {
        Some(a) => {
            if char_count(a.as_str()) > 0 {
                return clone_string(a);
            }
        },
        None => {},
    }
    match state.provider_kind {
        ProviderKind::Nextcloud => clone_string(&state.username),
        ProviderKind::GoogleDrive => email_local_part(gdrive_setup.user_email.as_str()),
        ProviderKind::OneDrive => email_local_part(onedrive_setup.user_email.as_str()),
        ProviderKind::Dropbox => email_local_part(dropbox_setup.user_email.as_str()),
    }
}

/// The OAuth connection a finished setup yields: none unless both
/// tokens are there; the folder falls back to `default_root`.
pub open spec fn oauth_from_setup_spec(
    root_folder: Seq<char>,
    user_email: Seq<char>,
    access_token: Seq<char>,
    refresh_token: Seq<char>,
    token_type: Seq<char>,
    expires_at: u64,
    scope: Seq<char>,
    default_root: Seq<char>,
) -> Option<OAuthConnectionView> {
    if access_token.len() == 0 || refresh_token.len() == 0 {
        None
    } else {
        Some(
            OAuthConnectionView {
                root_folder_id: None,
                root_folder: if root_folder.len() == 0 {
                    default_root
                } else {
                    root_folder
                },
                user_email,
                access_token,
                refresh_token,
                token_type,
                expires_at,
                scope,
            },
        )
    }
}

pub open spec fn device_oauth_spec(s: DeviceSetupView, default_root: Seq<char>) -> Option<
    OAuthConnectionView,
> {
    oauth_from_setup_spec(
        s.root_folder,
        s.user_email,
        s.access_token,
        s.refresh_token,
        s.token_type,
        s.access_expires_at,
        s.scope,
        default_root,
    )
}

pub open spec fn dropbox_oauth_spec(s: DropboxSetupView, default_root: Seq<char>) -> Option<
    OAuthConnectionView,
> {
    oauth_from_setup_spec(
        s.root_folder,
        s.user_email,
        s.access_token,
        s.refresh_token,
        s.token_type,
        s.access_expires_at,
        s.scope,
        default_root,
    )
}

pub open spec fn opt_oauth_view(o: Option<OAuthConnection>) -> Option<OAuthConnectionView> {
    match o {
        Some(c) => Some(c@),
        None => None,
    }
}

fn oauth_from_setup(
    root_folder: &String,
    user_email: &String,
    access_token: &String,
    refresh_token: &String,
    token_type: &String,
    expires_at: u64,
    scope: &String,
    default_root: &str,
) -> (r: Option<OAuthConnection>)
    ensures
        opt_oauth_view(r) == oauth_from_setup_spec(
            root_folder@,
            user_email@,
            access_token@,
            refresh_token@,
            token_type@,
            expires_at,
            scope@,
            default_root@,
        ),
{
    if char_count(access_token.as_str()) == 0 || char_count(refresh_token.as_str()) == 0 {
        return None;
    }
    let root = if char_count(root_folder.as_str()) == 0 {
        from_str(default_root)
    } else {
        clone_string(root_folder)
    };
    Some(
        OAuthConnection {
            root_folder: root,
            root_folder_id: None,
            user_email: clone_string(user_email),
            access_token: clone_string(access_token),
            refresh_token: clone_string(refresh_token),
            token_type: clone_string(token_type),
            expires_at,
            scope: clone_string(scope),
        },
    )
}

/// The Google Drive connection of a finished device-flow setup; `None`
/// when a token is missing.
pub fn gdrive_profile_from_setup(s: &GoogleDriveSetupState, default_root: &str) -> (r: Option<
    OAuthConnection,
>)
    ensures
        opt_oauth_view(r) == device_oauth_spec(s@, default_root@),
{
    oauth_from_setup(
        &s.root_folder,
        &s.user_email,
        &s.access_token,
        &s.refresh_token,
        &s.token_type,
        s.access_expires_at,
        &s.scope,
        default_root,
    )
}

/// The OneDrive connection of a finished device-flow setup; `None`
/// when a token is missing.
pub fn onedrive_profile_from_setup(s: &OneDriveSetupState, default_root: &str) -> (r: Option<
    OAuthConnection,
>)
    ensures
        opt_oauth_view(r) == device_oauth_spec(s@, default_root@),
{
    oauth_from_setup(
        &s.root_folder,
        &s.user_email,
        &s.access_token,
        &s.refresh_token,
        &s.token_type,
        s.access_expires_at,
        &s.scope,
        default_root,
    )
}

/// The Dropbox connection of a finished paste-code setup; `None` when
/// a token is missing.
pub fn dropbox_profile_from_setup(s: &DropboxSetupState, default_root: &str) -> (r: Option<
    OAuthConnection,
>)
    ensures
        opt_oauth_view(r) == dropbox_oauth_spec(s@, default_root@),
{
    oauth_from_setup(
        &s.root_folder,
        &s.user_email,
        &s.access_token,
        &s.refresh_token,
        &s.token_type,
        s.access_expires_at,
        &s.scope,
        default_root,
    )
}

/// Folder names a provider's connection falls back to when the setup
/// left the folder empty.
pub struct DefaultRoots {
    pub google_drive: String,
    pub onedrive: String,
    pub dropbox: String,
}

/// The provider entry and default target of the profile the wizard
/// saves, or the message when the chosen provider's setup has no
/// tokens.
pub open spec fn provider_entry_spec(
    st: WizardStateView,
    gd: DeviceSetupView,
    od: DeviceSetupView,
    db: DropboxSetupView,
    roots: (Seq<char>, Seq<char>, Seq<char>),
) -> Result<(ProviderProfileView, Seq<char>), Seq<char>> {
    match st.provider_kind {
        ProviderKind::Nextcloud => Ok(
            (
                ProviderProfileView::Nextcloud(
                    crate::profile::NextcloudConnectionView {
                        server_url: st.server_url,
                        username: st.username,
                        auth_kind: NextcloudAuthKind::AppPassword,
                        secret: st.auth_secret,
                        remote_root: st.remote_folder,
                    },
                ),
                "nextcloud"@,
            ),
        ),
        ProviderKind::GoogleDrive => match device_oauth_spec(gd, roots.0) {
            Some(c) => Ok((ProviderProfileView::GoogleDrive(c), "google_drive"@)),
            None => Err("google drive setup did not yield tokens"@),
        },
        ProviderKind::OneDrive => match device_oauth_spec(od, roots.1) {
            Some(c) => Ok((ProviderProfileView::OneDrive(c), "onedrive"@)),
            None => Err("onedrive setup did not yield tokens"@),
        },
        ProviderKind::Dropbox => match dropbox_oauth_spec(db, roots.2) {
            Some(c) => Ok((ProviderProfileView::Dropbox(c), "dropbox"@)),
            None => Err("dropbox setup did not yield tokens"@),
        },
    }
}

pub open spec fn roots_view(r: DefaultRoots) -> (Seq<char>, Seq<char>, Seq<char>) {
    (r.google_drive@, r.onedrive@, r.dropbox@)
}

/// The time stamp a profile created at Unix time `now` carries.
pub open spec fn stamp_spec(now: u64) -> Seq<char> {
    "epoch:"@ + decimal_spec(now as nat)
}

/// The inner profile the wizard saves under `alias` at Unix time
/// `now`, or the message when the provider's setup has no tokens.
pub open spec fn new_profile_spec(
    st: WizardStateView,
    gd: DeviceSetupView,
    od: DeviceSetupView,
    db: DropboxSetupView,
    roots: (Seq<char>, Seq<char>, Seq<char>),
    alias: Seq<char>,
    now: u64,
) -> Result<PlainProfileView, Seq<char>> {
    match provider_entry_spec(st, gd, od, db, roots) {
        Ok((entry, target)) => Ok(
            PlainProfileView {
                profile_version: 1,
                profile_id: "local-"@ + decimal_spec(now as nat),
                alias,
                default_target: target,
                providers: seq![entry],
                collision_policy: st.collision,
                settings_from: None,
                created_at: stamp_spec(now),
                updated_at: stamp_spec(now),
            },
        ),
        Err(m) => Err(m),
    }
}

pub open spec fn profile_result_view(r: Result<PlainProfile, String>) -> Result<
    PlainProfileView,
    Seq<char>,
> {
    match r {
        Ok(p) => Ok(p@),
        Err(m) => Err(m@),
    }
}

fn provider_entry(
    state: &WizardState,
    gdrive_setup: &GoogleDriveSetupState,
    onedrive_setup: &OneDriveSetupState,
    dropbox_setup: &DropboxSetupState,
    roots: &DefaultRoots,
) -> (r: Result<(ProviderProfile, String), String>)
    ensures
        match r {
            Ok((p, t)) => provider_entry_spec(
                state@,
                gdrive_setup@,
                onedrive_setup@,
                dropbox_setup@,
                roots_view(*roots),
            ) == Ok::<(ProviderProfileView, Seq<char>), Seq<char>>((p@, t@)),
            Err(m) => provider_entry_spec(
                state@,
                gdrive_setup@,
                onedrive_setup@,
                dropbox_setup@,
                roots_view(*roots),
            ) == Err::<(ProviderProfileView, Seq<char>), Seq<char>>(m@),
        },
{
    match state.provider_kind {
        ProviderKind::Nextcloud => {
            let nc = NextcloudConnection {
                server_url: clone_string(&state.server_url),
                username: clone_string(&state.username),
                auth_kind: NextcloudAuthKind::AppPassword,
                secret: clone_string(&state.auth_secret),
                remote_root: clone_string(&state.remote_folder),
            };
            Ok((ProviderProfile::Nextcloud(nc), from_str("nextcloud")))
        },
        ProviderKind::GoogleDrive => match gdrive_profile_from_setup(
            gdrive_setup,
            roots.google_drive.as_str(),
        ) {
            Some(c) => Ok((ProviderProfile::GoogleDrive(c), from_str("google_drive"))),
            None => Err(from_str("google drive setup did not yield tokens")),
        },
        ProviderKind::OneDrive => match onedrive_profile_from_setup(
            onedrive_setup,
            roots.onedrive.as_str(),
        ) {
            Some(c) => Ok((ProviderProfile::OneDrive(c), from_str("onedrive"))),
            None => Err(from_str("onedrive setup did not yield tokens")),
        },
        ProviderKind::Dropbox => match dropbox_profile_from_setup(
            dropbox_setup,
            roots.dropbox.as_str(),
        ) {
            Some(c) => Ok((ProviderProfile::Dropbox(c), from_str("dropbox"))),
            None => Err(from_str("dropbox setup did not yield tokens")),
        },
    }
}

fn stamp(now: u64) -> (s: String)
    ensures
        s@ == stamp_spec(now),
{
    let mut s = from_str("epoch:");
    s.append(decimal(now).as_str());
    s
}

/// The inner profile the wizard saves under `alias`, stamped with Unix
/// time `now`.
pub fn new_inner_profile_at(
    state: &WizardState,
    gdrive_setup: &GoogleDriveSetupState,
    onedrive_setup: &OneDriveSetupState,
    dropbox_setup: &DropboxSetupState,
    roots: &DefaultRoots,
    alias: &str,
    now: u64,
) -> (r: Result<PlainProfile, String>)
    ensures
        profile_result_view(r) == new_profile_spec(
            state@,
            gdrive_setup@,
            onedrive_setup@,
            dropbox_setup@,
            roots_view(*roots),
            alias@,
            now,
        ),
{
    match provider_entry(state, gdrive_setup, onedrive_setup, dropbox_setup, roots) {
        Ok((entry, target)) => {
            let mut id = from_str("local-");
            id.append(decimal(now).as_str());
            let mut providers: Vec<ProviderProfile> = Vec::new();
            providers.push(entry);
            let p = PlainProfile {
                profile_version: 1,
                profile_id: id,
                alias: from_str(alias),
                default_target: target,
                providers,
                collision_policy: state.collision,
                settings_from: None,
                created_at: stamp(now),
                updated_at: stamp(now),
            };
            assert(p@.providers =~= seq![entry@]);
            Ok(p)
        },
        Err(m) => Err(m),
    }
}

/// The inner profile the wizard saves under `alias`, stamped with the
/// current time.
pub fn new_inner_profile(
    state: &WizardState,
    gdrive_setup: &GoogleDriveSetupState,
    onedrive_setup: &OneDriveSetupState,
    dropbox_setup: &DropboxSetupState,
    roots: &DefaultRoots,
    alias: &str,
) -> (r: Result<PlainProfile, String>)
    ensures
        exists|now: u64|
            profile_result_view(r) == new_profile_spec(
                state@,
                gdrive_setup@,
                onedrive_setup@,
                dropbox_setup@,
                roots_view(*roots),
                alias@,
                now,
            ),
{
    let (now, _) = unix_time();
    new_inner_profile_at(state, gdrive_setup, onedrive_setup, dropbox_setup, roots, alias, now)
}

/// The profiles of `ps` not called `alias`, in order.
pub open spec fn without_alias(ps: Seq<PlainProfileView>, alias: Seq<char>) -> Seq<PlainProfileView>
    decreases ps.len(),
{
    if ps.len() == 0 {
        ps
    } else {
        let rest = without_alias(ps.drop_last(), alias);
        if ps.last().alias == alias {
            rest
        } else {
            rest.push(ps.last())
        }
    }
}

pub open spec fn kek_missing_message() -> Seq<char> {
    "no cached KEK; run `zz c` and unlock again"@
}

pub open spec fn opt_set_view(s: Option<ProfileSet>) -> Option<Seq<PlainProfileView>> {
    match s {
        Some(x) => Some(x@),
        None => None,
    }
}

pub open spec fn set_result_view(r: Result<ProfileSet, String>) -> Result<Seq<PlainProfileView>, Seq<char>> {
    match r {
        Ok(s) => Ok(s@),
        Err(m) => Err(m@),
    }
}

/// The container after adding an inner profile called `alias`: refused
/// when the alias is not accepted, when no key or no container is held,
/// when the alias is taken, or when the profile could not be built.
pub open spec fn added_set_spec(
    set: Option<Seq<PlainProfileView>>,
    kek_cached: bool,
    alias_accepted: bool,
    alias: Seq<char>,
    profile: Result<PlainProfileView, Seq<char>>,
) -> Result<Seq<PlainProfileView>, Seq<char>> {
    if !alias_accepted {
        Err("alias rejected"@)
    } else if !kek_cached {
        Err(kek_missing_message())
    } else {
        match set {
            None => Err("container not in RAM"@),
            Some(ps) => if position_of_alias(ps, alias) is Some {
                Err("alias already exists in this container"@)
            } else {
                match profile {
                    Ok(p) => Ok(ps.push(p)),
                    Err(m) => Err(m),
                }
            },
        }
    }
}

/// The container after removing the inner profiles called `alias`:
/// refused for an empty alias, when no key or no container is held,
/// when no profile has that alias, and when nothing would be left.
pub open spec fn removed_set_spec(
    set: Option<Seq<PlainProfileView>>,
    kek_cached: bool,
    alias: Seq<char>,
) -> Result<Seq<PlainProfileView>, Seq<char>> {
    if alias.len() == 0 {
        Err("no active inner profile to delete"@)
    } else if !kek_cached {
        Err(kek_missing_message())
    } else {
        match set {
            None => Err("container not in RAM"@),
            Some(ps) => {
                let kept = without_alias(ps, alias);
                if kept.len() == ps.len() {
                    Err("alias `"@ + alias + "` not found in container"@)
                } else if kept.len() == 0 {
                    Err("refusing to write an empty container"@)
                } else {
                    Ok(kept)
                }
            },
        }
    }
}

fn set_without(set: &ProfileSet, alias: &str) -> (r: ProfileSet)
    ensures
        r@ == without_alias(set@, alias@),
{
    let mut kept: Vec<PlainProfile> = Vec::new();
    let mut i: usize = 0;
    while i < set.profiles.len()
        invariant
            i <= set.profiles.len(),
            set@.len() == set.profiles@.len(),
            kept@.map_values(|p: PlainProfile| p@) == without_alias(set@.take(i as int), alias@),
        decreases set.profiles.len() - i,
    {
        let ghost before = kept@;
        assert(set@.take(i + 1).drop_last() =~= set@.take(i as int));
        assert(set@.take(i + 1).last() == set@[i as int]);
        assert(set@[i as int] == set.profiles@[i as int]@);
        if !str_eq(set.profiles[i].alias.as_str(), alias) {
            kept.push(set.profiles[i].duplicate());
            assert(kept@.map_values(|p: PlainProfile| p@) =~= before.map_values(|p: PlainProfile| p@).push(
                set@[i as int],
            ));
        }
        i = i + 1;
    }
    assert(set@.take(set@.len() as int) =~= set@);
    ProfileSet { profiles: kept }
}

impl App {
    /// The container with a new inner profile called `alias`, built
    /// from the wizard's current state at Unix time `now`; the caller
    /// encrypts it with the held key and writes it.
    pub fn added_inner_set_at(
        &self,
        alias: &str,
        alias_accepted: bool,
        roots: &DefaultRoots,
        now: u64,
    ) -> (r: Result<ProfileSet, String>)
        ensures
            set_result_view(r) == added_set_spec(
                opt_set_view(self.unlocked_set),
                self.unlocked_kek is Some,
                alias_accepted,
                alias@,
                new_profile_spec(
                    self.state@,
                    self.gdrive_setup@,
                    self.onedrive_setup@,
                    self.dropbox_setup@,
                    roots_view(*roots),
                    alias@,
                    now,
                ),
            ),
    {
        if !alias_accepted {
            return Err(from_str("alias rejected"));
        }
        if self.unlocked_kek.is_none() {
            return Err(from_str("no cached KEK; run `zz c` and unlock again"));
        }
        let set = match &self.unlocked_set {
            Some(s) => s,
            None => {
                return Err(from_str("container not in RAM"));
            },
        };
        if set.contains_alias(alias) {
            return Err(from_str("alias already exists in this container"));
        }
        match new_inner_profile_at(
            &self.state,
            &self.gdrive_setup,
            &self.onedrive_setup,
            &self.dropbox_setup,
            roots,
            alias,
            now,
        ) {
            Ok(p) => {
                let mut out = set.duplicate();
                let ghost before = out.profiles@;
                let ghost pv = p@;
                out.profiles.push(p);
                assert(out@ =~= set@.push(pv)) by {
                    assert(out.profiles@ == before.push(p));
                }
                Ok(out)
            },
            Err(m) => Err(m),
        }
    }

    /// The container with the inner profile called `alias` removed; the
    /// caller encrypts it with the held key and writes it.
    pub fn removed_inner_set(&self, alias: &str) -> (r: Result<ProfileSet, String>)
        ensures
            set_result_view(r) == removed_set_spec(
                opt_set_view(self.unlocked_set),
                self.unlocked_kek is Some,
                alias@,
            ),
    {
        if char_count(alias) == 0 {
            return Err(from_str("no active inner profile to delete"));
        }
        if self.unlocked_kek.is_none() {
            return Err(from_str("no cached KEK; run `zz c` and unlock again"));
        }
        let set = match &self.unlocked_set {
            Some(s) => s,
            None => {
                return Err(from_str("container not in RAM"));
            },
        };
        let kept = set_without(set, alias);
        if kept.profiles.len() == set.profiles.len() {
            let mut m = from_str("alias `");
            m.append(alias);
            m.append("` not found in container");
            return Err(m);
        }
        if kept.profiles.len() == 0 {
            return Err(from_str("refusing to write an empty container"));
        }
        Ok(kept)
    }
}

/// No profile left by `without_alias` is called `alias`, and every
/// profile not called `alias` is kept.
pub proof fn lemma_without_alias(ps: Seq<PlainProfileView>, alias: Seq<char>)
    ensures
        forall|j: int| 0 <= j < without_alias(ps, alias).len() ==> (#[trigger] without_alias(ps, alias)[j]).alias != alias,
        without_alias(ps, alias).len() <= ps.len(),
        (forall|j: int| 0 <= j < ps.len() ==> (#[trigger] ps[j]).alias != alias) ==> without_alias(ps, alias) == ps,
    decreases ps.len(),
{
    if ps.len() > 0 {
        lemma_without_alias(ps.drop_last(), alias);
        if forall|j: int| 0 <= j < ps.len() ==> (#[trigger] ps[j]).alias != alias {
            assert forall|j: int| 0 <= j < ps.drop_last().len() implies (#[trigger] ps.drop_last()[j]).alias != alias by {
                assert(ps.drop_last()[j] == ps[j]);
            }
            assert(ps.drop_last().push(ps.last()) =~= ps);
        }
    }
}

/// Removing an inner profile right after adding it gives back the
/// container as it was, when it held other profiles and none with that
/// alias.
pub proof fn law_remove_undoes_add(ps: Seq<PlainProfileView>, p: PlainProfileView)
    requires
        p.alias.len() > 0,
        ps.len() > 0,
        position_of_alias(ps, p.alias) is None,
    ensures
        added_set_spec(Some(ps), true, true, p.alias, Ok(p)) == Ok::<Seq<PlainProfileView>, Seq<char>>(
            ps.push(p),
        ),
        removed_set_spec(Some(ps.push(p)), true, p.alias) == Ok::<Seq<PlainProfileView>, Seq<char>>(ps),
{
    lemma_position_of_alias(ps, p.alias);
    lemma_without_alias(ps, p.alias);
    assert(ps.push(p).drop_last() =~= ps);
}

/// A successful removal leaves no profile called `alias` and takes at
/// least one out.
pub proof fn law_removed_alias_is_gone(set: Option<Seq<PlainProfileView>>, kek_cached: bool, alias: Seq<char>)
    ensures
        match removed_set_spec(set, kek_cached, alias) {
            Ok(kept) => {
                &&& position_of_alias(kept, alias) is None
                &&& kept.len() < set.unwrap().len()
            },
            Err(_) => true,
        },
{
    if let Some(ps) = set {
        lemma_without_alias(ps, alias);
        let kept = without_alias(ps, alias);
        lemma_position_of_alias(kept, alias);
    }
}

/// A successful addition appends the new profile and leaves the others
/// as they were, in order.
pub proof fn law_added_profile_is_appended(
    set: Option<Seq<PlainProfileView>>,
    kek_cached: bool,
    alias_accepted: bool,
    alias: Seq<char>,
    profile: Result<PlainProfileView, Seq<char>>,
)
    ensures
        match added_set_spec(set, kek_cached, alias_accepted, alias, profile) {
            Ok(out) => {
                &&& out.len() == set.unwrap().len() + 1
                &&& out.drop_last() == set.unwrap()
                &&& Ok::<PlainProfileView, Seq<char>>(out.last()) == profile
            },
            Err(_) => true,
        },
{
    if let Some(ps) = set {
        if let Ok(p) = profile {
            assert(ps.push(p).drop_last() =~= ps);
        }
    }
}

} // verus!
