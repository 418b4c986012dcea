//! The configuration TUI as a state machine: everything the screens
//! show and every request the driver has to carry out lives in `App`.
//! Key presses go through `on_key`; the driver reports the outcome of
//! each request through one of the `apply_*` methods.

use vstd::prelude::*;
use crate::alias_gen::{ProviderPrefix, prefixed_alias_from_seed, suggest_alias_for_seed};
use crate::input::{TextInput, empty_input, empty_masked_input};
use crate::profile::{
    CollisionPolicy, NextcloudAuthKind, NextcloudConnection, NextcloudConnectionView,
    OAuthConnection, OAuthConnectionView, PlainProfile, PlainProfileView, ProfileKek,
    ProfileSet, ProviderKindTag, ProviderProfile, ProviderProfileView,
    first_of_kind, kind_of, lemma_first_of_kind_from, position_of_alias,
};
use crate::screens::{AuthFocus, InnerAliasState, Screen};
use crate::text::{from_str, starts_with, string_chars};
use crate::widgets::{AgentPill, AgentPillView};
use crate::wizard::{
    AccountFocus, AuthKind, CollisionChoice, DeviceSetupView, DeviceStageView, DropboxSetupStage,
    DropboxStageView, GoogleDriveSetupStage, DropboxSetupState, DropboxSetupView,
    GoogleDriveSetupState, LoginFlowState, LoginFlowStateView, ManageStage, OneDriveSetupState,
    PassphraseFocus, PassphraseStage, PassphraseStageView, ProviderKind, PushFlowMode,
    PushFlowState, PushFlowView, PushStage, PushStageView, WelcomeItem, WizardMode, WizardState,
    WizardStateView, fresh_device_setup, fresh_dropbox_setup, fresh_login_flow, fresh_push_flow,
    fresh_wizard, opt_static_view, opt_str_view, find_slash_from, lemma_slash_from_bounds, slash_from,
};

verus! {

/// Which container the open-existing flow works on.
#[derive(Clone, Copy, Debug, Default, PartialEq, Eq, Structural)]
pub enum ProfileSource {
    /// The local-only container, never synced.
    #[default]
    Local,
    /// The local copy of a container kept on a server.
    Remote,
}

/// What a successful upload reported, kept for the Done screen.
#[derive(Clone, Debug)]
pub struct PushedSummary {
    pub alias: String,
    pub blob_size: u64,
    pub blob_version: u64,
}

pub struct PushedSummaryView {
    pub alias: Seq<char>,
    pub blob_size: u64,
    pub blob_version: u64,
}

impl View for PushedSummary {
    type V = PushedSummaryView;

    open spec fn view(&self) -> PushedSummaryView {
        PushedSummaryView { alias: self.alias@, blob_size: self.blob_size, blob_version: self.blob_version }
    }
}

/// What the driver found on disk and in the environment at start-up.
pub struct Startup {
    pub profile_local_path: Option<String>,
    pub profile_remote_path: Option<String>,
    pub local_exists: bool,
    pub remote_exists: bool,
    /// Base URL of the account server.
    pub api_base: String,
    /// The configuration directory as the welcome screen shows it.
    pub config_dir_display: String,
    /// Whether the server-synced entries are offered at all.
    pub remote_enabled: bool,
}

pub struct StartupView {
    pub profile_local_path: Option<Seq<char>>,
    pub profile_remote_path: Option<Seq<char>>,
    pub local_exists: bool,
    pub remote_exists: bool,
    pub api_base: Seq<char>,
    pub config_dir_display: Seq<char>,
    pub remote_enabled: bool,
}

impl View for Startup {
    type V = StartupView;

    open spec fn view(&self) -> StartupView {
        StartupView {
            profile_local_path: opt_str_view(self.profile_local_path),
            profile_remote_path: opt_str_view(self.profile_remote_path),
            local_exists: self.local_exists,
            remote_exists: self.remote_exists,
            api_base: self.api_base@,
            config_dir_display: self.config_dir_display@,
            remote_enabled: self.remote_enabled,
        }
    }
}

/// The whole TUI state.
pub struct App {
    pub screen: Screen,
    pub should_quit: bool,
    pub state: WizardState,
    pub server_input: TextInput,
    pub username_input: TextInput,
    pub secret_input: TextInput,
    pub remote_folder_input: TextInput,
    pub auth_focus: AuthFocus,
    pub collision: CollisionChoice,
    /// An upload probe is running.
    pub test_running: bool,
    /// Request: run the upload probe.
    pub test_request: bool,
    pub login_flow: LoginFlowState,
    /// Request: start a Nextcloud login flow.
    pub login_flow_request_init: bool,
    /// Request: poll the Nextcloud login flow.
    pub login_flow_request_poll: bool,
    pub gdrive_setup: GoogleDriveSetupState,
    /// Request: start the Google Drive device flow.
    pub gdrive_request_init: bool,
    /// Request: fetch the Google account's e-mail.
    pub gdrive_request_email: bool,
    pub onedrive_setup: OneDriveSetupState,
    pub onedrive_request_init: bool,
    pub onedrive_request_email: bool,
    pub dropbox_setup: DropboxSetupState,
    /// Request: build the Dropbox authorize URL.
    pub dropbox_request_init: bool,
    /// Request: exchange the pasted Dropbox code for tokens.
    pub dropbox_request_exchange: bool,
    pub dropbox_request_email: bool,
    pub passphrase_input: TextInput,
    pub confirm_input: TextInput,
    pub passphrase_focus: PassphraseFocus,
    pub passphrase_stage: PassphraseStage,
    /// Request: encrypt and write the new container.
    pub save_request: bool,
    pub saved_path: Option<String>,
    pub welcome_item: WelcomeItem,
    pub wizard_mode: WizardMode,
    pub push_flow: PushFlowState,
    pub account_email_input: TextInput,
    pub account_password_input: TextInput,
    pub account_focus: AccountFocus,
    /// Why the account form was refused before any request.
    pub account_validation_error: Option<&'static str>,
    pub totp_code_input: TextInput,
    pub push_alias_input: TextInput,
    pub api_base: String,
    pub config_dir_display: String,
    /// Request: log in with e-mail and password.
    pub push_request_login: bool,
    /// Request: answer the two-factor challenge.
    pub push_request_totp: bool,
    /// Request: list the account's aliases.
    pub push_request_list: bool,
    /// Request: upload the container.
    pub push_request_send: bool,
    /// Request: download the picked container.
    pub signin_request_download: bool,
    /// Request: re-encrypt the local container under the picked alias
    /// before uploading it.
    pub rewrite_blob_for_alias_request: bool,
    pub pushed_summary: Option<PushedSummary>,
    pub local_exists: bool,
    pub remote_exists: bool,
    pub profile_local_path: Option<String>,
    pub profile_remote_path: Option<String>,
    pub unlock_source: ProfileSource,
    /// Source of the container kept unlocked in memory.
    pub cached_source: Option<ProfileSource>,
    /// Session token kept for the rest of the session.
    pub cached_session_token: Option<String>,
    /// Where a successful login leads; `None` is the alias picker.
    pub post_login_target: Option<Screen>,
    pub manage_passphrase_input: TextInput,
    pub manage_stage: ManageStage,
    pub manage_unlock_error: Option<String>,
    pub unlocked_profile: Option<PlainProfile>,
    pub unlocked_set: Option<ProfileSet>,
    pub unlocked_kek: Option<ProfileKek>,
    pub picker_index: usize,
    pub picker_default_alias: Option<String>,
    pub inner_alias_input: TextInput,
    pub inner_alias_state: InnerAliasState,
    pub inner_alias_error: Option<String>,
    /// Request: append the new connection to the unlocked container.
    pub add_inner_request: bool,
    pub manage_show_secret: bool,
    /// Request: decrypt the chosen container.
    pub unlock_request: bool,
    /// Request: delete the container files.
    pub wipe_request: bool,
    /// Request: remove the active connection from the container.
    pub delete_inner_request: bool,
    /// Where leaving the upload probe returns to.
    pub test_upload_back: Option<Screen>,
    /// Where `Esc` on the account screens returns to.
    pub push_back: Option<Screen>,
    /// Whether the server-synced entries are offered.
    pub remote_enabled: bool,
}

pub open spec fn opt_summary_view(o: Option<PushedSummary>) -> Option<PushedSummaryView> {
    match o {
        Some(s) => Some(s@),
        None => None,
    }
}

pub open spec fn opt_profile_view(o: Option<PlainProfile>) -> Option<PlainProfileView> {
    match o {
        Some(p) => Some(p@),
        None => None,
    }
}

pub open spec fn opt_set_view(o: Option<ProfileSet>) -> Option<Seq<PlainProfileView>> {
    match o {
        Some(s) => Some(s@),
        None => None,
    }
}

/// Where the welcome cursor starts: the server-synced container when
/// it exists (and is offered), else the local one, else the wizard.
pub open spec fn initial_welcome_item(s: StartupView) -> WelcomeItem {
    if s.remote_enabled && s.remote_exists {
        WelcomeItem::OpenRemote
    } else if s.local_exists {
        WelcomeItem::OpenLocal
    } else {
        WelcomeItem::Configure
    }
}

/// The state at start-up: the welcome screen, an empty wizard whose
/// server field reads `https://`, nothing unlocked, nothing requested.
pub open spec fn starts_fresh(a: App, s: StartupView) -> bool {
    &&& a.screen == Screen::Welcome
    &&& !a.should_quit
    &&& a.state@ == fresh_wizard()
    &&& a.server_input@ == empty_input().with_value("https://"@)
    &&& a.username_input@ == empty_input()
    &&& a.secret_input@ == empty_masked_input()
    &&& a.remote_folder_input@ == empty_input()
    &&& a.auth_focus == AuthFocus::KindSelector
    &&& a.collision == CollisionChoice::Rename
    &&& !a.test_running
    &&& !a.test_request
    &&& a.login_flow@ == fresh_login_flow()
    &&& !a.login_flow_request_init
    &&& !a.login_flow_request_poll
    &&& a.gdrive_setup@ == fresh_device_setup()
    &&& !a.gdrive_request_init
    &&& !a.gdrive_request_email
    &&& a.onedrive_setup@ == fresh_device_setup()
    &&& !a.onedrive_request_init
    &&& !a.onedrive_request_email
    &&& a.dropbox_setup@ == fresh_dropbox_setup()
    &&& !a.dropbox_request_init
    &&& !a.dropbox_request_exchange
    &&& !a.dropbox_request_email
    &&& a.passphrase_input@ == empty_masked_input()
    &&& a.confirm_input@ == empty_masked_input()
    &&& a.passphrase_focus == PassphraseFocus::Passphrase
    &&& a.passphrase_stage == PassphraseStage::Editing
    &&& !a.save_request
    &&& a.saved_path is None
    &&& a.welcome_item == initial_welcome_item(s)
    &&& a.wizard_mode == WizardMode::CreateLocal
    &&& a.push_flow@ == fresh_push_flow()
    &&& a.account_email_input@ == empty_input()
    &&& a.account_password_input@ == empty_masked_input()
    &&& a.account_focus == AccountFocus::Email
    &&& a.account_validation_error is None
    &&& a.totp_code_input@ == empty_input()
    &&& a.push_alias_input@ == empty_input()
    &&& a.api_base@ == s.api_base
    &&& a.config_dir_display@ == s.config_dir_display
    &&& !a.push_request_login
    &&& !a.push_request_totp
    &&& !a.push_request_list
    &&& !a.push_request_send
    &&& !a.signin_request_download
    &&& !a.rewrite_blob_for_alias_request
    &&& a.pushed_summary is None
    &&& a.local_exists == s.local_exists
    &&& a.remote_exists == s.remote_exists
    &&& opt_str_view(a.profile_local_path) == s.profile_local_path
    &&& opt_str_view(a.profile_remote_path) == s.profile_remote_path
    &&& a.unlock_source == (if s.remote_exists {
        ProfileSource::Remote
    } else {
        ProfileSource::Local
    })
    &&& a.cached_source is None
    &&& a.cached_session_token is None
    &&& a.post_login_target is None
    &&& a.manage_passphrase_input@ == empty_masked_input()
    &&& a.manage_stage == ManageStage::Locked
    &&& a.manage_unlock_error is None
    &&& a.unlocked_profile is None
    &&& a.unlocked_set is None
    &&& a.unlocked_kek is None
    &&& a.picker_index == 0
    &&& a.picker_default_alias is None
    &&& a.inner_alias_input@ == empty_input()
    &&& a.inner_alias_state == InnerAliasState::Editing
    &&& a.inner_alias_error is None
    &&& !a.add_inner_request
    &&& !a.manage_show_secret
    &&& !a.unlock_request
    &&& !a.wipe_request
    &&& !a.delete_inner_request
    &&& a.test_upload_back is None
    &&& a.push_back is None
    &&& a.remote_enabled == s.remote_enabled
}

/// Nothing on disk, no server configured.
pub open spec fn empty_startup() -> StartupView {
    StartupView {
        profile_local_path: None,
        profile_remote_path: None,
        local_exists: false,
        remote_exists: false,
        api_base: Seq::empty(),
        config_dir_display: Seq::empty(),
        remote_enabled: false,
    }
}

/// `s` without a leading `https://` or `http://`.
pub open spec fn strip_scheme_spec(s: Seq<char>) -> Seq<char> {
    if "https://"@.is_prefix_of(s) {
        s.skip(8)
    } else if "http://"@.is_prefix_of(s) {
        s.skip(7)
    } else {
        s
    }
}

/// The server's name for display: the base URL without its scheme
/// and without anything from the first `/` on.
pub open spec fn server_label_spec(api_base: Seq<char>) -> Seq<char> {
    let t = strip_scheme_spec(api_base);
    match slash_from(t, 0) {
        Some(j) => t.take(j),
        None => t,
    }
}

/// Strips the scheme and any path from `api_base`, e.g. `zz-drop.net`
/// for `https://zz-drop.net`.
pub fn server_label_for(api_base: &str) -> (r: String)
    ensures
        r@ == server_label_spec(api_base@),
{
    proof {
        reveal_strlit("https://");
        reveal_strlit("http://");
    }
    let n = api_base.unicode_len();
    let t: &str = if starts_with(api_base, "https://") {
        api_base.substring_char(8, n)
    } else if starts_with(api_base, "http://") {
        api_base.substring_char(7, n)
    } else {
        api_base
    };
    assert(t@ == strip_scheme_spec(api_base@));
    let v = string_chars(t);
    proof {
        lemma_slash_from_bounds(v@, 0);
    }
    match find_slash_from(&v, 0) {
        Some(j) => t.substring_char(0, j).to_owned(),
        None => t.to_owned(),
    }
}

impl App {
    /// A session with nothing on disk and no server configured.
    pub fn new() -> (a: Self)
        ensures
            starts_fresh(a, empty_startup()),
    {
        let s = Startup {
            profile_local_path: None,
            profile_remote_path: None,
            local_exists: false,
            remote_exists: false,
            api_base: String::new(),
            config_dir_display: String::new(),
            remote_enabled: false,
        };
        App::with_startup(s)
    }

    /// A session over what the driver found at start-up.
    pub fn with_startup(s: Startup) -> (a: Self)
        ensures
            starts_fresh(a, s@),
    {
        let welcome_item = if s.remote_enabled && s.remote_exists {
            WelcomeItem::OpenRemote
        } else if s.local_exists {
            WelcomeItem::OpenLocal
        } else {
            WelcomeItem::Configure
        };
        let mut server_input = TextInput::new();
        server_input.set_value("https://");
        let unlock_source = if s.remote_exists {
            ProfileSource::Remote
        } else {
            ProfileSource::Local
        };
        App {
            screen: Screen::Welcome,
            should_quit: false,
            state: WizardState::new(),
            server_input,
            username_input: TextInput::new(),
            secret_input: TextInput::masked(),
            remote_folder_input: TextInput::new(),
            auth_focus: AuthFocus::KindSelector,
            collision: CollisionChoice::Rename,
            test_running: false,
            test_request: false,
            login_flow: LoginFlowState::default(),
            login_flow_request_init: false,
            login_flow_request_poll: false,
            gdrive_setup: GoogleDriveSetupState::default(),
            gdrive_request_init: false,
            gdrive_request_email: false,
            onedrive_setup: GoogleDriveSetupState::default(),
            onedrive_request_init: false,
            onedrive_request_email: false,
            dropbox_setup: DropboxSetupState::default(),
            dropbox_request_init: false,
            dropbox_request_exchange: false,
            dropbox_request_email: false,
            passphrase_input: TextInput::masked(),
            confirm_input: TextInput::masked(),
            passphrase_focus: PassphraseFocus::Passphrase,
            passphrase_stage: PassphraseStage::Editing,
            save_request: false,
            saved_path: None,
            welcome_item,
            wizard_mode: WizardMode::CreateLocal,
            push_flow: PushFlowState::default(),
            account_email_input: TextInput::new(),
            account_password_input: TextInput::masked(),
            account_focus: AccountFocus::Email,
            account_validation_error: None,
            totp_code_input: TextInput::new(),
            push_alias_input: TextInput::new(),
            api_base: s.api_base,
            config_dir_display: s.config_dir_display,
            push_request_login: false,
            push_request_totp: false,
            push_request_list: false,
            push_request_send: false,
            signin_request_download: false,
            rewrite_blob_for_alias_request: false,
            pushed_summary: None,
            local_exists: s.local_exists,
            remote_exists: s.remote_exists,
            profile_local_path: s.profile_local_path,
            profile_remote_path: s.profile_remote_path,
            unlock_source,
            cached_source: None,
            cached_session_token: None,
            post_login_target: None,
            manage_passphrase_input: TextInput::masked(),
            manage_stage: ManageStage::Locked,
            manage_unlock_error: None,
            unlocked_profile: None,
            unlocked_set: None,
            unlocked_kek: None,
            picker_index: 0,
            picker_default_alias: None,
            inner_alias_input: TextInput::new(),
            inner_alias_state: InnerAliasState::Editing,
            inner_alias_error: None,
            add_inner_request: false,
            manage_show_secret: false,
            unlock_request: false,
            wipe_request: false,
            delete_inner_request: false,
            test_upload_back: None,
            push_back: None,
            remote_enabled: s.remote_enabled,
        }
    }

    /// Either container file is on disk.
    pub fn profile_exists(&self) -> (b: bool)
        ensures
            b == (self.local_exists || self.remote_exists),
    {
        self.local_exists || self.remote_exists
    }

    /// The configured server's name for display.
    pub fn server_label(&self) -> (r: String)
        ensures
            r@ == server_label_spec(self.api_base@),
    {
        server_label_for(self.api_base.as_str())
    }
}

/// The path of the container the open-existing flow works on: the
/// chosen one when its file exists, else whichever file exists
/// (server-synced first).
pub open spec fn active_path_spec(a: App) -> Option<Seq<char>> {
    if a.unlock_source == ProfileSource::Local && a.local_exists {
        opt_str_view(a.profile_local_path)
    } else if a.unlock_source == ProfileSource::Remote && a.remote_exists {
        opt_str_view(a.profile_remote_path)
    } else if a.remote_exists {
        opt_str_view(a.profile_remote_path)
    } else if a.local_exists {
        opt_str_view(a.profile_local_path)
    } else {
        None
    }
}

/// `saved_path` after it is pointed at the active container: that
/// path when there is one, unchanged otherwise.
pub open spec fn saved_path_after(a: App) -> Option<Seq<char>> {
    match active_path_spec(a) {
        Some(p) => Some(p),
        None => opt_str_view(a.saved_path),
    }
}
/// The account sub-flow entered in `mode` reusing the session token
/// kept from earlier: the alias list is requested straight away.
#[verifier::opaque]
pub open spec fn entered_push_flow_with_session(a: App, b: App, mode: PushFlowMode, back: Option<Screen>) -> bool {
    &&& a.cached_session_token is Some
    &&& b.push_alias_input@ == empty_input()
    &&& b.push_flow@ == (PushFlowView {
        mode: mode,
        session_token: Some(a.cached_session_token.unwrap()@),
        stage: PushStageView::PushFetching,
        ..fresh_push_flow()
    })
    &&& b == (App {
        push_flow: b.push_flow,
        push_alias_input: b.push_alias_input,
        push_back: back,
        post_login_target: None,
        push_request_list: true,
        screen: Screen::PushProfile,
        ..a
    })
}

/// The account sub-flow entered in `mode` without a session: the
/// account form opens empty.
#[verifier::opaque]
pub open spec fn entered_push_flow_at_account(a: App, b: App, mode: PushFlowMode, back: Option<Screen>) -> bool {
    &&& b.push_alias_input@ == empty_input()
    &&& b.push_flow@ == (PushFlowView { mode: mode, ..fresh_push_flow() })
    &&& b.account_email_input@ == empty_input()
    &&& b.account_password_input@ == empty_masked_input()
    &&& b.totp_code_input@ == empty_input()
    &&& b == (App {
        push_flow: b.push_flow,
        push_alias_input: b.push_alias_input,
        push_back: back,
        post_login_target: None,
        account_focus: AccountFocus::Email,
        account_email_input: b.account_email_input,
        account_password_input: b.account_password_input,
        account_validation_error: None,
        totp_code_input: b.totp_code_input,
        screen: Screen::Account,
        ..a
    })
}

/// `b` is `a` with the account sub-flow entered in `mode`, returning
/// to `back` on `Esc`.
pub open spec fn entered_push_flow(a: App, b: App, mode: PushFlowMode, back: Option<Screen>) -> bool {
    if a.cached_session_token is Some {
        entered_push_flow_with_session(a, b, mode, back)
    } else {
        entered_push_flow_at_account(a, b, mode, back)
    }
}

/// `b` is `a` with the account sub-flow left for `target`: its state,
/// forms and requests all cleared.
#[verifier::opaque]
pub open spec fn exited_push_flow(a: App, b: App, target: Screen) -> bool {
    &&& b.push_flow@ == fresh_push_flow()
    &&& b.account_email_input@ == empty_input()
    &&& b.account_password_input@ == empty_masked_input()
    &&& b.totp_code_input@ == empty_input()
    &&& b.push_alias_input@ == empty_input()
    &&& b == (App {
        push_flow: b.push_flow,
        account_email_input: b.account_email_input,
        account_password_input: b.account_password_input,
        account_validation_error: None,
        totp_code_input: b.totp_code_input,
        push_alias_input: b.push_alias_input,
        push_request_login: false,
        push_request_totp: false,
        push_request_list: false,
        push_request_send: false,
        signin_request_download: false,
        rewrite_blob_for_alias_request: false,
        screen: target,
        ..a
    })
}

#[verifier::opaque]
pub open spec fn routed_to_login_target(a: App, b: App) -> bool {
    &&& a.post_login_target is Some
    &&& b == (App {
        post_login_target: None,
        push_flow: PushFlowState { stage: PushStage::AccountForm, ..a.push_flow },
        screen: a.post_login_target.unwrap(),
        ..a
    })
}

#[verifier::opaque]
pub open spec fn routed_to_alias_list(a: App, b: App) -> bool {
    b == (App {
        push_flow: PushFlowState { stage: PushStage::PushFetching, ..a.push_flow },
        push_request_list: true,
        screen: Screen::PushProfile,
        ..a
    })
}

/// After a login: the screen that asked for it, else the alias list.
pub open spec fn routed_after_login(a: App, b: App) -> bool {
    if a.post_login_target is Some {
        routed_to_login_target(a, b)
    } else {
        routed_to_alias_list(a, b)
    }
}

/// Picker row of the connection that was active, if it is still in
/// the unlocked container; the current row otherwise.
pub open spec fn cached_picker_index_spec(a: App) -> usize {
    match (a.unlocked_set, a.unlocked_profile) {
        (Some(set), Some(p)) => match position_of_alias(set@, p.alias@) {
            Some(i) => i as usize,
            None => a.picker_index,
        },
        _ => a.picker_index,
    }
}

/// Reopening the container that is still unlocked in memory: the
/// passphrase is skipped and the picker opens on the connection that
/// was active.
#[verifier::opaque]
pub open spec fn opened_cached_profile(a: App, b: App, target: ProfileSource) -> bool {
    b == (App {
        unlock_source: target,
        manage_unlock_error: None,
        manage_show_secret: false,
        picker_index: cached_picker_index_spec(a),
        unlocked_profile: None,
        manage_stage: ManageStage::Locked,
        screen: Screen::ContainerPicker,
        ..a
    })
}

/// Opening a container that is not unlocked: whatever was unlocked is
/// dropped and the passphrase prompt opens.
#[verifier::opaque]
pub open spec fn opened_profile_prompt(a: App, b: App, target: ProfileSource) -> bool {
    &&& b.manage_passphrase_input@ == empty_masked_input()
    &&& b == (App {
        unlock_source: target,
        manage_unlock_error: None,
        unlocked_profile: None,
        unlocked_set: None,
        unlocked_kek: None,
        cached_source: None,
        manage_show_secret: false,
        manage_passphrase_input: b.manage_passphrase_input,
        manage_stage: ManageStage::Locked,
        screen: Screen::ProfileUnlock,
        ..a
    })
}

/// The container is still unlocked from the same source.
pub open spec fn cache_hit(a: App, target: ProfileSource) -> bool {
    a.cached_source == Some(target) && a.unlocked_set is Some
}

/// Opening a container from the welcome menu.
pub open spec fn opened_profile(a: App, b: App, target: ProfileSource) -> bool {
    if cache_hit(a, target) {
        opened_cached_profile(a, b, target)
    } else {
        opened_profile_prompt(a, b, target)
    }
}

/// Where the welcome cursor goes after the Done screen: the container
/// that now exists.
pub open spec fn welcome_item_after_done(a: App) -> WelcomeItem {
    if a.remote_exists {
        WelcomeItem::OpenRemote
    } else if a.local_exists {
        WelcomeItem::OpenLocal
    } else {
        WelcomeItem::Configure
    }
}

/// Leaving the Done screen: the wizard's passphrase step, upload
/// summary and account sub-flow are reset and the welcome screen opens.
#[verifier::opaque]
pub open spec fn returned_to_welcome(a: App, b: App) -> bool {
    &&& b.passphrase_input@ == empty_masked_input()
    &&& b.confirm_input@ == empty_masked_input()
    &&& b.push_flow@ == fresh_push_flow()
    &&& b == (App {
        passphrase_stage: PassphraseStage::Editing,
        passphrase_input: b.passphrase_input,
        confirm_input: b.confirm_input,
        passphrase_focus: PassphraseFocus::Passphrase,
        saved_path: None,
        pushed_summary: None,
        push_flow: b.push_flow,
        wizard_mode: WizardMode::CreateLocal,
        welcome_item: welcome_item_after_done(a),
        screen: Screen::Welcome,
        ..a
    })
}

/// A fresh walk through the wizard that will add a connection to the
/// unlocked container.
#[verifier::opaque]
pub open spec fn started_add_inner(a: App, b: App) -> bool {
    &&& b.state@ == fresh_wizard()
    &&& b.gdrive_setup@ == fresh_device_setup()
    &&& b.server_input@ == a.server_input@.with_value("https://"@)
    &&& b.username_input@ == empty_input()
    &&& b.secret_input@ == empty_masked_input()
    &&& b.remote_folder_input@ == empty_input()
    &&& b == (App {
        state: b.state,
        gdrive_setup: b.gdrive_setup,
        server_input: b.server_input,
        username_input: b.username_input,
        secret_input: b.secret_input,
        remote_folder_input: b.remote_folder_input,
        wizard_mode: WizardMode::AddInnerProfile,
        screen: Screen::Provider,
        ..a
    })
}

pub open spec fn provider_prefix(k: ProviderKind) -> ProviderPrefix {
    match k {
        ProviderKind::Nextcloud => ProviderPrefix::Nextcloud,
        ProviderKind::GoogleDrive => ProviderPrefix::GoogleDrive,
        ProviderKind::OneDrive => ProviderPrefix::OneDrive,
        ProviderKind::Dropbox => ProviderPrefix::Dropbox,
    }
}

/// The alias `seed` suggests for a connection of kind `k`.
pub open spec fn inner_alias_suggestion(k: ProviderKind, seed: u64) -> Seq<char> {
    prefixed_alias_from_seed(provider_prefix(k), seed)
}

/// The alias prompt pre-filled with the suggestion `seed` picks for the
/// wizard's provider.
#[verifier::opaque]
pub open spec fn prepared_inner_alias(a: App, b: App, seed: u64) -> bool {
    &&& b.inner_alias_input@ == a.inner_alias_input@.with_value(
        inner_alias_suggestion(a.state.provider_kind, seed),
    )
    &&& b == (App {
        inner_alias_input: b.inner_alias_input,
        inner_alias_state: InnerAliasState::Editing,
        inner_alias_error: None,
        ..a
    })
}

impl App {
    /// Moves the whole state out, leaving a fresh one behind; every
    /// transition builds its successor from the value taken out.
    pub(crate) fn take_out(&mut self) -> (a: App)
        ensures
            a == *old(self),
    {
        let mut o = App::new();
        core::mem::swap(&mut o, self);
        o
    }

    /// Path of the container the open-existing flow works on.
    pub fn active_profile_path(&self) -> (r: Option<&str>)
        ensures
            match r {
                Some(p) => active_path_spec(*self) == Some(p@),
                None => active_path_spec(*self) is None,
            },
    {
        let chosen_local = self.unlock_source == ProfileSource::Local && self.local_exists;
        let chosen_remote = self.unlock_source == ProfileSource::Remote && self.remote_exists;
        let path = if chosen_local {
            &self.profile_local_path
        } else if chosen_remote {
            &self.profile_remote_path
        } else if self.remote_exists {
            &self.profile_remote_path
        } else if self.local_exists {
            &self.profile_local_path
        } else {
            return None;
        };
        match path {
            Some(p) => Some(p.as_str()),
            None => None,
        }
    }

    /// `saved_path` pointed at the active container.
    pub(crate) fn saved_path_at_active(&self) -> (r: Option<String>)
        ensures
            opt_str_view(r) == saved_path_after(*self),
    {
        match self.active_profile_path() {
            Some(p) => Some(from_str(p)),
            None => self.saved_path.clone(),
        }
    }

    /// Picker row of the connection that was active, if it is still
    /// in the unlocked container; the current row otherwise.
    fn cached_picker_index(&self) -> (r: usize)
        ensures
            r == cached_picker_index_spec(*self),
    {
        match (&self.unlocked_set, &self.unlocked_profile) {
            (Some(set), Some(active)) => match set.position_of(active.alias.as_str()) {
                Some(i) => i,
                None => self.picker_index,
            },
            _ => self.picker_index,
        }
    }
}

/// Account sub-flow state on entry: fresh, in `mode`, and fetching the
/// alias list when a session token is at hand.
fn entry_flow(mode: PushFlowMode, token: &Option<String>) -> (f: PushFlowState)
    ensures
        f@ == (match token {
            Some(t) => PushFlowView {
                mode: mode,
                session_token: Some(t@),
                stage: PushStageView::PushFetching,
                ..fresh_push_flow()
            },
            None => PushFlowView { mode: mode, ..fresh_push_flow() },
        }),
{
    match token {
        Some(t) => PushFlowState {
            mode: mode,
            session_token: Some(t.clone()),
            stage: PushStage::PushFetching,
            ..PushFlowState::default()
        },
        None => PushFlowState { mode: mode, ..PushFlowState::default() },
    }
}

pub(crate) fn enter_push_flow(a: App, mode: PushFlowMode, back: Option<Screen>) -> (b: App)
    ensures
        entered_push_flow(a, b, mode, back),
{
    if a.cached_session_token.is_some() {
        enter_push_flow_with_session(a, mode, back)
    } else {
        enter_push_flow_at_account(a, mode, back)
    }
}

fn enter_push_flow_with_session(a: App, mode: PushFlowMode, back: Option<Screen>) -> (b: App)
    requires
        a.cached_session_token is Some,
    ensures
        entered_push_flow_with_session(a, b, mode, back),
{
    proof {
        reveal(entered_push_flow_with_session);
    }
    let flow = entry_flow(mode, &a.cached_session_token);
    App {
        push_flow: flow,
        push_alias_input: TextInput::new(),
        push_back: back,
        post_login_target: None,
        push_request_list: true,
        screen: Screen::PushProfile,
        ..a
    }
}

fn enter_push_flow_at_account(a: App, mode: PushFlowMode, back: Option<Screen>) -> (b: App)
    requires
        a.cached_session_token is None,
    ensures
        entered_push_flow_at_account(a, b, mode, back),
{
    proof {
        reveal(entered_push_flow_at_account);
    }
    let flow = entry_flow(mode, &a.cached_session_token);
    App {
        push_flow: flow,
        push_alias_input: TextInput::new(),
        push_back: back,
        post_login_target: None,
        account_focus: AccountFocus::Email,
        account_email_input: TextInput::new(),
        account_password_input: TextInput::masked(),
        account_validation_error: None,
        totp_code_input: TextInput::new(),
        screen: Screen::Account,
        ..a
    }
}

pub(crate) fn exit_push_flow_to(a: App, target: Screen) -> (b: App)
    ensures
        exited_push_flow(a, b, target),
{
    proof {
        reveal(exited_push_flow);
    }
    App {
        push_flow: PushFlowState::default(),
        account_email_input: TextInput::new(),
        account_password_input: TextInput::masked(),
        account_validation_error: None,
        totp_code_input: TextInput::new(),
        push_alias_input: TextInput::new(),
        push_request_login: false,
        push_request_totp: false,
        push_request_list: false,
        push_request_send: false,
        signin_request_download: false,
        rewrite_blob_for_alias_request: false,
        screen: target,
        ..a
    }
}

pub(crate) fn route_after_login(a: App) -> (b: App)
    ensures
        routed_after_login(a, b),
{
    proof {
        reveal(routed_to_login_target);
        reveal(routed_to_alias_list);
    }
    match a.post_login_target {
        Some(target) => App {
            post_login_target: None,
            push_flow: PushFlowState { stage: PushStage::AccountForm, ..a.push_flow },
            screen: target,
            ..a
        },
        None => App {
            push_flow: PushFlowState { stage: PushStage::PushFetching, ..a.push_flow },
            push_request_list: true,
            screen: Screen::PushProfile,
            ..a
        },
    }
}

pub(crate) fn open_profile(a: App, target: ProfileSource) -> (b: App)
    ensures
        opened_profile(a, b, target),
{
    proof {
        reveal(opened_cached_profile);
        reveal(opened_profile_prompt);
    }
    if a.cached_source == Some(target) && a.unlocked_set.is_some() {
        let idx = a.cached_picker_index();
        App {
            unlock_source: target,
            manage_unlock_error: None,
            manage_show_secret: false,
            picker_index: idx,
            unlocked_profile: None,
            manage_stage: ManageStage::Locked,
            screen: Screen::ContainerPicker,
            ..a
        }
    } else {
        App {
            unlock_source: target,
            manage_unlock_error: None,
            unlocked_profile: None,
            unlocked_set: None,
            unlocked_kek: None,
            cached_source: None,
            manage_show_secret: false,
            manage_passphrase_input: TextInput::masked(),
            manage_stage: ManageStage::Locked,
            screen: Screen::ProfileUnlock,
            ..a
        }
    }
}

pub(crate) fn return_to_welcome_after_done(a: App) -> (b: App)
    ensures
        returned_to_welcome(a, b),
{
    proof {
        reveal(returned_to_welcome);
    }
    let item = if a.remote_exists {
        WelcomeItem::OpenRemote
    } else if a.local_exists {
        WelcomeItem::OpenLocal
    } else {
        WelcomeItem::Configure
    };
    App {
        passphrase_stage: PassphraseStage::Editing,
        passphrase_input: TextInput::masked(),
        confirm_input: TextInput::masked(),
        passphrase_focus: PassphraseFocus::Passphrase,
        saved_path: None,
        pushed_summary: None,
        push_flow: PushFlowState::default(),
        wizard_mode: WizardMode::CreateLocal,
        welcome_item: item,
        screen: Screen::Welcome,
        ..a
    }
}

pub(crate) fn start_add_inner_profile(a: App) -> (b: App)
    ensures
        started_add_inner(a, b),
{
    proof {
        reveal(started_add_inner);
    }
    let mut server = a.server_input;
    server.set_value("https://");
    App {
        state: WizardState::new(),
        gdrive_setup: GoogleDriveSetupState::default(),
        server_input: server,
        username_input: TextInput::new(),
        secret_input: TextInput::masked(),
        remote_folder_input: TextInput::new(),
        wizard_mode: WizardMode::AddInnerProfile,
        screen: Screen::Provider,
        ..a
    }
}

pub(crate) fn prepare_inner_alias_input(a: App, seed: u64) -> (b: App)
    ensures
        prepared_inner_alias(a, b, seed),
{
    proof {
        reveal(prepared_inner_alias);
    }
    let suggestion = suggest_alias_for_seed(prefix_for(a.state.provider_kind), seed);
    let mut input = a.inner_alias_input;
    input.set_value(suggestion.as_str());
    App {
        inner_alias_input: input,
        inner_alias_state: InnerAliasState::Editing,
        inner_alias_error: None,
        ..a
    }
}

fn prefix_for(k: ProviderKind) -> (p: ProviderPrefix)
    ensures
        p == provider_prefix(k),
{
    match k {
        ProviderKind::Nextcloud => ProviderPrefix::Nextcloud,
        ProviderKind::GoogleDrive => ProviderPrefix::GoogleDrive,
        ProviderKind::OneDrive => ProviderPrefix::OneDrive,
        ProviderKind::Dropbox => ProviderPrefix::Dropbox,
    }
}

/// The session ends.
#[verifier::opaque]
pub open spec fn quits(a: App, b: App) -> bool {
    b == (App { should_quit: true, ..a })
}

/// The screen changes to `s`, nothing else.
#[verifier::opaque]
pub open spec fn goes_to(a: App, b: App, s: Screen) -> bool {
    b == (App { screen: s, ..a })
}

pub(crate) fn quit(a: App) -> (b: App)
    ensures
        quits(a, b),
{
    proof {
        reveal(quits);
    }
    App { should_quit: true, ..a }
}

pub(crate) fn go_to(a: App, s: Screen) -> (b: App)
    ensures
        goes_to(a, b, s),
{
    proof {
        reveal(goes_to);
    }
    App { screen: s, ..a }
}

pub open spec fn auth_kind_of(k: NextcloudAuthKind) -> AuthKind {
    match k {
        NextcloudAuthKind::AppPassword => AuthKind::AppPassword,
        NextcloudAuthKind::LoginFlowToken => AuthKind::LoginFlow,
    }
}

/// Device-flow setup state holding the tokens of an OAuth connection,
/// finished.
pub open spec fn device_setup_of(o: OAuthConnectionView) -> DeviceSetupView {
    DeviceSetupView {
        user_email: o.user_email,
        root_folder: o.root_folder,
        access_token: o.access_token,
        refresh_token: o.refresh_token,
        token_type: o.token_type,
        access_expires_at: o.expires_at,
        scope: o.scope,
        stage: DeviceStageView::Done,
        ..fresh_device_setup()
    }
}

/// Dropbox setup state holding the tokens of an OAuth connection,
/// finished.
pub open spec fn dropbox_setup_of(o: OAuthConnectionView) -> DropboxSetupView {
    DropboxSetupView {
        user_email: o.user_email,
        root_folder: o.root_folder,
        access_token: o.access_token,
        refresh_token: o.refresh_token,
        token_type: o.token_type,
        access_expires_at: o.expires_at,
        scope: o.scope,
        stage: DropboxStageView::Done,
        ..fresh_dropbox_setup()
    }
}

/// The wizard and its fields take a Nextcloud connection's data.
#[verifier::opaque]
pub open spec fn hydrated_nextcloud(
    a: App,
    b: App,
    policy: CollisionPolicy,
    nc: NextcloudConnectionView,
) -> bool {
    &&& b.state@ == (WizardStateView {
        collision: policy,
        provider_kind: ProviderKind::Nextcloud,
        server_url: nc.server_url,
        username: nc.username,
        remote_folder: nc.remote_root,
        auth_secret: nc.secret,
        auth_kind: auth_kind_of(nc.auth_kind),
        ..a.state@
    })
    &&& b.username_input@ == a.username_input@.with_value(nc.username)
    &&& b.secret_input@ == a.secret_input@.with_value(nc.secret)
    &&& b.server_input@ == a.server_input@.with_value(nc.server_url)
    &&& b.remote_folder_input@ == a.remote_folder_input@.with_value(nc.remote_root)
    &&& b == (App {
        state: b.state,
        username_input: b.username_input,
        secret_input: b.secret_input,
        server_input: b.server_input,
        remote_folder_input: b.remote_folder_input,
        ..a
    })
}

/// The wizard takes an OAuth connection's data for provider `k`.
#[verifier::opaque]
pub open spec fn hydrated_oauth(
    a: App,
    b: App,
    policy: CollisionPolicy,
    k: ProviderKind,
    o: OAuthConnectionView,
) -> bool {
    &&& b.state@ == (WizardStateView { collision: policy, provider_kind: k, ..a.state@ })
    &&& match k {
        ProviderKind::GoogleDrive => {
            &&& b.gdrive_setup@ == device_setup_of(o)
            &&& b == (App { state: b.state, gdrive_setup: b.gdrive_setup, ..a })
        },
        ProviderKind::OneDrive => {
            &&& b.onedrive_setup@ == device_setup_of(o)
            &&& b == (App { state: b.state, onedrive_setup: b.onedrive_setup, ..a })
        },
        _ => {
            &&& b.dropbox_setup@ == dropbox_setup_of(o)
            &&& b == (App { state: b.state, dropbox_setup: b.dropbox_setup, ..a })
        },
    }
}

/// Only the collision policy is taken over.
#[verifier::opaque]
pub open spec fn hydrated_policy_only(a: App, b: App, policy: CollisionPolicy) -> bool {
    &&& b.state@ == (WizardStateView { collision: policy, ..a.state@ })
    &&& b == (App { state: b.state, ..a })
}

/// The wizard takes over a stored connection: its collision policy,
/// and the data of its first Nextcloud entry, else its first Google
/// Drive, OneDrive or Dropbox entry, in that order.
pub open spec fn hydrated(a: App, b: App, p: PlainProfileView) -> bool {
    let ps = p.providers;
    let pol = p.collision_policy;
    match first_of_kind(ps, ProviderKindTag::Nextcloud) {
        Some(i) => ps[i] matches ProviderProfileView::Nextcloud(nc) && hydrated_nextcloud(a, b, pol, nc),
        None => match first_of_kind(ps, ProviderKindTag::GoogleDrive) {
            Some(i) => ps[i] matches ProviderProfileView::GoogleDrive(o) && hydrated_oauth(
                a,
                b,
                pol,
                ProviderKind::GoogleDrive,
                o,
            ),
            None => match first_of_kind(ps, ProviderKindTag::OneDrive) {
                Some(i) => ps[i] matches ProviderProfileView::OneDrive(o) && hydrated_oauth(
                    a,
                    b,
                    pol,
                    ProviderKind::OneDrive,
                    o,
                ),
                None => match first_of_kind(ps, ProviderKindTag::Dropbox) {
                    Some(i) => ps[i] matches ProviderProfileView::Dropbox(o) && hydrated_oauth(
                        a,
                        b,
                        pol,
                        ProviderKind::Dropbox,
                        o,
                    ),
                    None => hydrated_policy_only(a, b, pol),
                },
            },
        },
    }
}

fn hydrate_nextcloud(a: App, policy: CollisionPolicy, nc: &NextcloudConnection) -> (b: App)
    ensures
        hydrated_nextcloud(a, b, policy, nc@),
{
    proof {
        reveal(hydrated_nextcloud);
    }
    let kind = match nc.auth_kind {
        NextcloudAuthKind::AppPassword => AuthKind::AppPassword,
        NextcloudAuthKind::LoginFlowToken => AuthKind::LoginFlow,
    };
    let mut u = a.username_input;
    u.set_value(nc.username.as_str());
    let mut sec = a.secret_input;
    sec.set_value(nc.secret.as_str());
    let mut srv = a.server_input;
    srv.set_value(nc.server_url.as_str());
    let mut folder = a.remote_folder_input;
    folder.set_value(nc.remote_root.as_str());
    App {
        state: WizardState {
            collision: policy,
            provider_kind: ProviderKind::Nextcloud,
            server_url: nc.server_url.clone(),
            username: nc.username.clone(),
            remote_folder: nc.remote_root.clone(),
            auth_secret: nc.secret.clone(),
            auth_kind: kind,
            ..a.state
        },
        username_input: u,
        secret_input: sec,
        server_input: srv,
        remote_folder_input: folder,
        ..a
    }
}

fn device_setup_from(o: &OAuthConnection) -> (s: GoogleDriveSetupState)
    ensures
        s@ == device_setup_of(o@),
{
    GoogleDriveSetupState {
        user_email: o.user_email.clone(),
        root_folder: o.root_folder.clone(),
        access_token: o.access_token.clone(),
        refresh_token: o.refresh_token.clone(),
        token_type: o.token_type.clone(),
        access_expires_at: o.expires_at,
        scope: o.scope.clone(),
        stage: GoogleDriveSetupStage::Done,
        ..GoogleDriveSetupState::default()
    }
}

fn dropbox_setup_from(o: &OAuthConnection) -> (s: DropboxSetupState)
    ensures
        s@ == dropbox_setup_of(o@),
{
    DropboxSetupState {
        user_email: o.user_email.clone(),
        root_folder: o.root_folder.clone(),
        access_token: o.access_token.clone(),
        refresh_token: o.refresh_token.clone(),
        token_type: o.token_type.clone(),
        access_expires_at: o.expires_at,
        scope: o.scope.clone(),
        stage: DropboxSetupStage::Done,
        ..DropboxSetupState::default()
    }
}

fn hydrate_gdrive(a: App, policy: CollisionPolicy, o: &OAuthConnection) -> (b: App)
    ensures
        hydrated_oauth(a, b, policy, ProviderKind::GoogleDrive, o@),
{
    proof {
        reveal(hydrated_oauth);
    }
    let s = device_setup_from(o);
    App {
        state: WizardState { collision: policy, provider_kind: ProviderKind::GoogleDrive, ..a.state },
        gdrive_setup: s,
        ..a
    }
}

fn hydrate_onedrive(a: App, policy: CollisionPolicy, o: &OAuthConnection) -> (b: App)
    ensures
        hydrated_oauth(a, b, policy, ProviderKind::OneDrive, o@),
{
    proof {
        reveal(hydrated_oauth);
    }
    let s = device_setup_from(o);
    App {
        state: WizardState { collision: policy, provider_kind: ProviderKind::OneDrive, ..a.state },
        onedrive_setup: s,
        ..a
    }
}

fn hydrate_dropbox(a: App, policy: CollisionPolicy, o: &OAuthConnection) -> (b: App)
    ensures
        hydrated_oauth(a, b, policy, ProviderKind::Dropbox, o@),
{
    proof {
        reveal(hydrated_oauth);
    }
    let s = dropbox_setup_from(o);
    App {
        state: WizardState { collision: policy, provider_kind: ProviderKind::Dropbox, ..a.state },
        dropbox_setup: s,
        ..a
    }
}

fn hydrate_policy_only(a: App, policy: CollisionPolicy) -> (b: App)
    ensures
        hydrated_policy_only(a, b, policy),
{
    proof {
        reveal(hydrated_policy_only);
    }
    App { state: WizardState { collision: policy, ..a.state }, ..a }
}

/// The wizard takes over the stored connection `p`.
pub(crate) fn hydrate_from_inner(a: App, p: &PlainProfile) -> (b: App)
    ensures
        hydrated(a, b, p@),
{
    let pol = p.collision_policy;
    proof {
        lemma_first_of_kind_from(p@.providers, ProviderKindTag::Nextcloud, 0);
        lemma_first_of_kind_from(p@.providers, ProviderKindTag::GoogleDrive, 0);
        lemma_first_of_kind_from(p@.providers, ProviderKindTag::OneDrive, 0);
        lemma_first_of_kind_from(p@.providers, ProviderKindTag::Dropbox, 0);
    }
    if let Some(i) = p.first_of_kind(ProviderKindTag::Nextcloud) {
        assert(p@.providers[i as int] == p.providers@[i as int]@);
        match &p.providers[i] {
            ProviderProfile::Nextcloud(nc) => hydrate_nextcloud(a, pol, nc),
            _ => {
                proof {
                    assert(false);
                }
                a
            },
        }
    } else if let Some(i) = p.first_of_kind(ProviderKindTag::GoogleDrive) {
        assert(p@.providers[i as int] == p.providers@[i as int]@);
        match &p.providers[i] {
            ProviderProfile::GoogleDrive(o) => hydrate_gdrive(a, pol, o),
            _ => {
                proof {
                    assert(false);
                }
                a
            },
        }
    } else if let Some(i) = p.first_of_kind(ProviderKindTag::OneDrive) {
        assert(p@.providers[i as int] == p.providers@[i as int]@);
        match &p.providers[i] {
            ProviderProfile::OneDrive(o) => hydrate_onedrive(a, pol, o),
            _ => {
                proof {
                    assert(false);
                }
                a
            },
        }
    } else if let Some(i) = p.first_of_kind(ProviderKindTag::Dropbox) {
        assert(p@.providers[i as int] == p.providers@[i as int]@);
        match &p.providers[i] {
            ProviderProfile::Dropbox(o) => hydrate_dropbox(a, pol, o),
            _ => {
                proof {
                    assert(false);
                }
                a
            },
        }
    } else {
        hydrate_policy_only(a, pol)
    }
}

} // verus!
