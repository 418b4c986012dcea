//! Keys on the wizard's own screens: provider, server, credentials,
//! remote folder, collision policy and the upload probe.

use vstd::prelude::*;
use crate::app::{App, go_to, goes_to, prepare_inner_alias_input, prepared_inner_alias, quit, quits};
use crate::input::{TextInput, TextInputView};
use crate::keys::{KeyCode, KeyContext, KeyEvent};
use crate::screens::{AuthFocus, Screen};
use crate::text::{from_str, trim_spec};
use crate::wizard::{
    AuthKind, CollisionChoice, DeviceStageView, DropboxSetupState, DropboxStageView,
    GoogleDriveSetupState, LoginFlowStage, LoginFlowStageView, LoginFlowState, LoginFlowStateView,
    ProviderKind, TestOutcome, WizardMode, WizardState, WizardStateView, fresh_device_setup,
    fresh_dropbox_setup, fresh_login_flow, server_url_ok,
};

verus! {

pub open spec fn next_provider(k: ProviderKind) -> ProviderKind {
    match k {
        ProviderKind::Nextcloud => ProviderKind::GoogleDrive,
        ProviderKind::GoogleDrive => ProviderKind::OneDrive,
        ProviderKind::OneDrive => ProviderKind::Dropbox,
        ProviderKind::Dropbox => ProviderKind::Nextcloud,
    }
}

pub open spec fn previous_provider(k: ProviderKind) -> ProviderKind {
    match k {
        ProviderKind::Nextcloud => ProviderKind::Dropbox,
        ProviderKind::GoogleDrive => ProviderKind::Nextcloud,
        ProviderKind::OneDrive => ProviderKind::GoogleDrive,
        ProviderKind::Dropbox => ProviderKind::OneDrive,
    }
}

/// The provider highlighted in the picker becomes `k`.
#[verifier::opaque]
pub open spec fn picked_provider(a: App, b: App, k: ProviderKind) -> bool {
    b == (App { state: WizardState { provider_kind: k, ..a.state }, ..a })
}

/// The Google Drive device flow is reset and its start requested.
#[verifier::opaque]
pub open spec fn started_gdrive_setup(a: App, b: App) -> bool {
    &&& b.gdrive_setup@ == fresh_device_setup()
    &&& b == (App {
        gdrive_setup: b.gdrive_setup,
        gdrive_request_init: true,
        screen: Screen::SetupGoogleDrive,
        ..a
    })
}

/// The OneDrive device flow is reset and its start requested.
#[verifier::opaque]
pub open spec fn started_onedrive_setup(a: App, b: App) -> bool {
    &&& b.onedrive_setup@ == fresh_device_setup()
    &&& b == (App {
        onedrive_setup: b.onedrive_setup,
        onedrive_request_init: true,
        screen: Screen::SetupOneDrive,
        ..a
    })
}

/// The Dropbox flow is reset and its authorize URL requested.
#[verifier::opaque]
pub open spec fn started_dropbox_setup(a: App, b: App) -> bool {
    &&& b.dropbox_setup@ == fresh_dropbox_setup()
    &&& b == (App {
        dropbox_setup: b.dropbox_setup,
        dropbox_request_init: true,
        screen: Screen::SetupDropbox,
        ..a
    })
}

/// A key on the provider picker.
pub open spec fn provider_step(a: App, b: App, key: KeyEvent) -> bool {
    match key.code {
        KeyCode::Char('q') => quits(a, b),
        KeyCode::Esc | KeyCode::Char('b') | KeyCode::Left => goes_to(a, b, a.screen.previous_spec()),
        KeyCode::Up | KeyCode::Char('k') => picked_provider(
            a,
            b,
            previous_provider(a.state.provider_kind),
        ),
        KeyCode::Down | KeyCode::Char('j') => picked_provider(
            a,
            b,
            next_provider(a.state.provider_kind),
        ),
        KeyCode::Enter | KeyCode::Char('n') | KeyCode::Right => match a.state.provider_kind {
            ProviderKind::Nextcloud => goes_to(a, b, Screen::NextcloudServer),
            ProviderKind::GoogleDrive => started_gdrive_setup(a, b),
            ProviderKind::OneDrive => started_onedrive_setup(a, b),
            ProviderKind::Dropbox => started_dropbox_setup(a, b),
        },
        _ => b == a,
    }
}

fn cycle_provider(k: ProviderKind, forward: bool) -> (r: ProviderKind)
    ensures
        r == if forward {
            next_provider(k)
        } else {
            previous_provider(k)
        },
{
    match (k, forward) {
        (ProviderKind::Nextcloud, true) => ProviderKind::GoogleDrive,
        (ProviderKind::GoogleDrive, true) => ProviderKind::OneDrive,
        (ProviderKind::OneDrive, true) => ProviderKind::Dropbox,
        (ProviderKind::Dropbox, true) => ProviderKind::Nextcloud,
        (ProviderKind::Nextcloud, false) => ProviderKind::Dropbox,
        (ProviderKind::GoogleDrive, false) => ProviderKind::Nextcloud,
        (ProviderKind::OneDrive, false) => ProviderKind::GoogleDrive,
        (ProviderKind::Dropbox, false) => ProviderKind::OneDrive,
    }
}

fn pick_provider(a: App, k: ProviderKind) -> (b: App)
    ensures
        picked_provider(a, b, k),
{
    proof {
        reveal(picked_provider);
    }
    App { state: WizardState { provider_kind: k, ..a.state }, ..a }
}

fn start_gdrive_setup(a: App) -> (b: App)
    ensures
        started_gdrive_setup(a, b),
{
    proof {
        reveal(started_gdrive_setup);
    }
    App {
        gdrive_setup: GoogleDriveSetupState::default(),
        gdrive_request_init: true,
        screen: Screen::SetupGoogleDrive,
        ..a
    }
}

fn start_onedrive_setup(a: App) -> (b: App)
    ensures
        started_onedrive_setup(a, b),
{
    proof {
        reveal(started_onedrive_setup);
    }
    App {
        onedrive_setup: GoogleDriveSetupState::default(),
        onedrive_request_init: true,
        screen: Screen::SetupOneDrive,
        ..a
    }
}

fn start_dropbox_setup(a: App) -> (b: App)
    ensures
        started_dropbox_setup(a, b),
{
    proof {
        reveal(started_dropbox_setup);
    }
    App {
        dropbox_setup: DropboxSetupState::default(),
        dropbox_request_init: true,
        screen: Screen::SetupDropbox,
        ..a
    }
}

pub(crate) fn handle_provider(a: App, key: KeyEvent) -> (b: App)
    ensures
        provider_step(a, b, key),
{
    match key.code {
        KeyCode::Char('q') => quit(a),
        KeyCode::Esc | KeyCode::Char('b') | KeyCode::Left => {
            let s = a.screen.previous();
            go_to(a, s)
        },
        KeyCode::Up | KeyCode::Char('k') => {
            let k = cycle_provider(a.state.provider_kind, false);
            pick_provider(a, k)
        },
        KeyCode::Down | KeyCode::Char('j') => {
            let k = cycle_provider(a.state.provider_kind, true);
            pick_provider(a, k)
        },
        KeyCode::Enter | KeyCode::Char('n') | KeyCode::Right => match a.state.provider_kind {
            ProviderKind::Nextcloud => go_to(a, Screen::NextcloudServer),
            ProviderKind::GoogleDrive => start_gdrive_setup(a),
            ProviderKind::OneDrive => start_onedrive_setup(a),
            ProviderKind::Dropbox => start_dropbox_setup(a),
        },
        _ => a,
    }
}

/// The server field becomes `t`, the wizard's server URL follows it,
/// and the screen becomes `s`.
#[verifier::opaque]
pub open spec fn server_field_set(a: App, b: App, t: TextInputView, s: Screen) -> bool {
    &&& b.server_input@ == t
    &&& b.state@ == (WizardStateView { server_url: t.value, ..a.state@ })
    &&& b == (App { server_input: b.server_input, state: b.state, screen: s, ..a })
}

/// A key on the server screen. Whatever the key, the wizard's server
/// URL ends up equal to the field; `Enter` moves on only when that URL
/// is an `http` or `https` URL; `?` and spaces are never typed.
pub open spec fn server_step(a: App, b: App, key: KeyEvent) -> bool {
    let t = a.server_input@;
    match key.code {
        KeyCode::Esc => server_field_set(a, b, t, a.screen.previous_spec()),
        KeyCode::Enter => server_field_set(
            a,
            b,
            t,
            if server_url_ok(t.value) {
                a.screen.next_spec()
            } else {
                a.screen
            },
        ),
        KeyCode::Backspace => server_field_set(a, b, t.backspaced(), a.screen),
        KeyCode::Char(c) => if c == '?' || c == ' ' {
            server_field_set(a, b, t, a.screen)
        } else {
            server_field_set(a, b, t.typed(c), a.screen)
        },
        _ => server_field_set(a, b, t, a.screen),
    }
}

fn set_server_field(a: App, t: TextInput, s: Screen) -> (b: App)
    ensures
        server_field_set(a, b, t@, s),
{
    proof {
        reveal(server_field_set);
    }
    let url = from_str(t.value());
    App { server_input: t, state: WizardState { server_url: url, ..a.state }, screen: s, ..a }
}

pub(crate) fn handle_server(a: App, key: KeyEvent) -> (b: App)
    ensures
        server_step(a, b, key),
{
    let mut t = a.server_input.clone();
    match key.code {
        KeyCode::Esc => {
            let s = a.screen.previous();
            set_server_field(a, t, s)
        },
        KeyCode::Enter => {
            let probe = WizardState { server_url: from_str(t.value()), ..WizardState::new() };
            let s = if probe.server_url_valid() {
                a.screen.next()
            } else {
                a.screen
            };
            set_server_field(a, t, s)
        },
        KeyCode::Backspace => {
            t.backspace();
            let s = a.screen;
            set_server_field(a, t, s)
        },
        KeyCode::Char(c) => {
            if c != '?' && c != ' ' {
                t.push_char(c);
            }
            let s = a.screen;
            set_server_field(a, t, s)
        },
        _ => {
            let s = a.screen;
            set_server_field(a, t, s)
        },
    }
}

/// The credential fields become `u` and `sec`, the authentication kind
/// `kind`; the wizard's user name and secret follow the fields, and the
/// screen becomes `s`.
#[verifier::opaque]
pub open spec fn auth_fields_set(
    a: App,
    b: App,
    kind: AuthKind,
    u: TextInputView,
    sec: TextInputView,
    s: Screen,
) -> bool {
    &&& b.username_input@ == u
    &&& b.secret_input@ == sec
    &&& b.state@ == (WizardStateView {
        auth_kind: kind,
        username: u.value,
        auth_secret: sec.value,
        ..a.state@
    })
    &&& b == (App {
        username_input: b.username_input,
        secret_input: b.secret_input,
        state: b.state,
        screen: s,
        ..a
    })
}

/// The credentials are committed and a Nextcloud login flow is
/// requested.
#[verifier::opaque]
pub open spec fn login_flow_requested(a: App, b: App) -> bool {
    &&& b.state@ == (WizardStateView {
        username: a.username_input@.value,
        auth_secret: a.secret_input@.value,
        ..a.state@
    })
    &&& b.login_flow@ == (LoginFlowStateView {
        stage: LoginFlowStageView::Initiating,
        ..fresh_login_flow()
    })
    &&& b == (App {
        state: b.state,
        login_flow: b.login_flow,
        login_flow_request_init: true,
        screen: Screen::NextcloudLoginFlow,
        ..a
    })
}

/// The focus on the credentials screen becomes `f`.
#[verifier::opaque]
pub open spec fn auth_focused(a: App, b: App, f: AuthFocus) -> bool {
    b == (App { auth_focus: f, ..a })
}

/// A key on the credentials screen. `Tab` and `BackTab` move the focus;
/// `Enter` commits the fields and moves on when both are filled in (an
/// app password) or starts the login flow when the server URL is valid
/// (a login flow); other keys edit the focused field, or switch the
/// authentication kind on the selector, and commit.
pub open spec fn auth_step(a: App, b: App, key: KeyEvent) -> bool {
    let u = a.username_input@;
    let sec = a.secret_input@;
    let kind = a.state.auth_kind;
    match key.code {
        KeyCode::Esc => goes_to(a, b, a.screen.previous_spec()),
        KeyCode::Tab => auth_focused(a, b, a.auth_focus.next_spec()),
        KeyCode::BackTab => auth_focused(a, b, a.auth_focus.previous_spec()),
        KeyCode::Enter => match kind {
            AuthKind::AppPassword => auth_fields_set(
                a,
                b,
                kind,
                u,
                sec,
                if trim_spec(u.value).len() > 0 && sec.value.len() > 0 {
                    a.screen.next_spec()
                } else {
                    a.screen
                },
            ),
            AuthKind::LoginFlow => if server_url_ok(a.state.server_url@) {
                login_flow_requested(a, b)
            } else {
                auth_fields_set(a, b, kind, u, sec, a.screen)
            },
        },
        _ => match a.auth_focus {
            AuthFocus::KindSelector => if key.code == KeyCode::Left || key.code == KeyCode::Right
                || key.code == KeyCode::Up || key.code == KeyCode::Down || key.code
                == KeyCode::Char(' ') {
                auth_fields_set(a, b, kind.next_spec(), u, sec, a.screen)
            } else {
                auth_fields_set(a, b, kind, u, sec, a.screen)
            },
            AuthFocus::Username => match key.code {
                KeyCode::Backspace => auth_fields_set(a, b, kind, u.backspaced(), sec, a.screen),
                KeyCode::Char(c) => auth_fields_set(a, b, kind, u.typed(c), sec, a.screen),
                _ => auth_fields_set(a, b, kind, u, sec, a.screen),
            },
            AuthFocus::Secret => match key.code {
                KeyCode::Backspace => auth_fields_set(a, b, kind, u, sec.backspaced(), a.screen),
                KeyCode::Char(c) => auth_fields_set(a, b, kind, u, sec.typed(c), a.screen),
                _ => auth_fields_set(a, b, kind, u, sec, a.screen),
            },
        },
    }
}

fn set_auth_fields(a: App, kind: AuthKind, u: TextInput, sec: TextInput, s: Screen) -> (b: App)
    ensures
        auth_fields_set(a, b, kind, u@, sec@, s),
{
    proof {
        reveal(auth_fields_set);
    }
    let name = from_str(u.value());
    let secret = from_str(sec.value());
    App {
        username_input: u,
        secret_input: sec,
        state: WizardState { auth_kind: kind, username: name, auth_secret: secret, ..a.state },
        screen: s,
        ..a
    }
}

fn request_login_flow(a: App) -> (b: App)
    ensures
        login_flow_requested(a, b),
{
    proof {
        reveal(login_flow_requested);
    }
    let name = from_str(a.username_input.value());
    let secret = from_str(a.secret_input.value());
    App {
        state: WizardState { username: name, auth_secret: secret, ..a.state },
        login_flow: LoginFlowState { stage: LoginFlowStage::Initiating, ..LoginFlowState::default() },
        login_flow_request_init: true,
        screen: Screen::NextcloudLoginFlow,
        ..a
    }
}

/// The typed user name and secret are copied into the wizard state.
#[verifier::opaque]
pub open spec fn auth_committed(a: App, b: App) -> bool {
    &&& b.state@ == (WizardStateView {
        username: a.username_input@.value,
        auth_secret: a.secret_input@.value,
        ..a.state@
    })
    &&& b == (App { state: b.state, ..a })
}

fn commit_auth_fields(a: App) -> (b: App)
    ensures
        auth_committed(a, b),
{
    proof {
        reveal(auth_committed);
    }
    let name = from_str(a.username_input.value());
    let secret = from_str(a.secret_input.value());
    App { state: WizardState { username: name, auth_secret: secret, ..a.state }, ..a }
}

impl App {
    /// Copies the typed user name and secret into the wizard state.
    pub fn commit_auth(&mut self)
        ensures
            auth_committed(*old(self), *final(self)),
    {
        let a = self.take_out();
        *self = commit_auth_fields(a);
    }
}

fn focus_auth(a: App, f: AuthFocus) -> (b: App)
    ensures
        auth_focused(a, b, f),
{
    proof {
        reveal(auth_focused);
    }
    App { auth_focus: f, ..a }
}

pub(crate) fn handle_auth(a: App, key: KeyEvent) -> (b: App)
    ensures
        auth_step(a, b, key),
{
    let mut u = a.username_input.clone();
    let mut sec = a.secret_input.clone();
    let kind = a.state.auth_kind;
    match key.code {
        KeyCode::Esc => {
            let s = a.screen.previous();
            go_to(a, s)
        },
        KeyCode::Tab => {
            let f = a.auth_focus.next();
            focus_auth(a, f)
        },
        KeyCode::BackTab => {
            let f = a.auth_focus.previous();
            focus_auth(a, f)
        },
        KeyCode::Enter => match kind {
            AuthKind::AppPassword => {
                let probe = WizardState {
                    username: from_str(u.value()),
                    auth_secret: from_str(sec.value()),
                    ..WizardState::new()
                };
                let s = if probe.username_valid() && probe.secret_valid() {
                    a.screen.next()
                } else {
                    a.screen
                };
                set_auth_fields(a, kind, u, sec, s)
            },
            AuthKind::LoginFlow => {
                if a.state.server_url_valid() {
                    request_login_flow(a)
                } else {
                    let s = a.screen;
                    set_auth_fields(a, kind, u, sec, s)
                }
            },
        },
        _ => {
            let s = a.screen;
            match a.auth_focus {
                AuthFocus::KindSelector => {
                    let switch = key.code == KeyCode::Left || key.code == KeyCode::Right
                        || key.code == KeyCode::Up || key.code == KeyCode::Down || key.code
                        == KeyCode::Char(' ');
                    let k = if switch {
                        kind.next()
                    } else {
                        kind
                    };
                    set_auth_fields(a, k, u, sec, s)
                },
                AuthFocus::Username => {
                    match key.code {
                        KeyCode::Backspace => u.backspace(),
                        KeyCode::Char(c) => u.push_char(c),
                        _ => {},
                    }
                    set_auth_fields(a, kind, u, sec, s)
                },
                AuthFocus::Secret => {
                    match key.code {
                        KeyCode::Backspace => sec.backspace(),
                        KeyCode::Char(c) => sec.push_char(c),
                        _ => {},
                    }
                    set_auth_fields(a, kind, u, sec, s)
                },
            }
        },
    }
}

/// The remote-folder field becomes `t`, the wizard's remote folder
/// follows it, and the screen becomes `s`.
#[verifier::opaque]
pub open spec fn folder_field_set(a: App, b: App, t: TextInputView, s: Screen) -> bool {
    &&& b.remote_folder_input@ == t
    &&& b.state@ == (WizardStateView { remote_folder: t.value, ..a.state@ })
    &&& b == (App { remote_folder_input: b.remote_folder_input, state: b.state, screen: s, ..a })
}

/// A key on the remote-folder screen: the wizard's remote folder ends
/// up equal to the field; `Enter` moves on when the trimmed field is
/// not empty and the provider's encoder accepts it.
pub open spec fn folder_step(a: App, b: App, key: KeyEvent, ctx: KeyContext) -> bool {
    let t = a.remote_folder_input@;
    match key.code {
        KeyCode::Esc => folder_field_set(a, b, t, a.screen.previous_spec()),
        KeyCode::Enter => folder_field_set(
            a,
            b,
            t,
            if trim_spec(t.value).len() > 0 && ctx.folder_encodable {
                a.screen.next_spec()
            } else {
                a.screen
            },
        ),
        KeyCode::Backspace => folder_field_set(a, b, t.backspaced(), a.screen),
        KeyCode::Char(c) => folder_field_set(a, b, t.typed(c), a.screen),
        _ => folder_field_set(a, b, t, a.screen),
    }
}

fn set_folder_field(a: App, t: TextInput, s: Screen) -> (b: App)
    ensures
        folder_field_set(a, b, t@, s),
{
    proof {
        reveal(folder_field_set);
    }
    let folder = from_str(t.value());
    App { remote_folder_input: t, state: WizardState { remote_folder: folder, ..a.state }, screen: s, ..a }
}

pub(crate) fn handle_remote_folder(a: App, key: KeyEvent, ctx: KeyContext) -> (b: App)
    ensures
        folder_step(a, b, key, ctx),
{
    let mut t = a.remote_folder_input.clone();
    match key.code {
        KeyCode::Esc => {
            let s = a.screen.previous();
            set_folder_field(a, t, s)
        },
        KeyCode::Enter => {
            let probe = WizardState { remote_folder: from_str(t.value()), ..WizardState::new() };
            let s = if probe.remote_folder_valid(ctx.folder_encodable) {
                a.screen.next()
            } else {
                a.screen
            };
            set_folder_field(a, t, s)
        },
        KeyCode::Backspace => {
            t.backspace();
            let s = a.screen;
            set_folder_field(a, t, s)
        },
        KeyCode::Char(c) => {
            t.push_char(c);
            let s = a.screen;
            set_folder_field(a, t, s)
        },
        _ => {
            let s = a.screen;
            set_folder_field(a, t, s)
        },
    }
}

/// The highlighted collision policy becomes `c`.
#[verifier::opaque]
pub open spec fn collision_highlighted(a: App, b: App, c: CollisionChoice) -> bool {
    b == (App { collision: c, ..a })
}

/// The highlighted collision policy is stored in the wizard and the
/// wizard moves on.
#[verifier::opaque]
pub open spec fn collision_confirmed(a: App, b: App) -> bool {
    b == (App {
        state: WizardState { collision: a.collision.policy_spec(), ..a.state },
        screen: a.screen.next_spec(),
        ..a
    })
}

/// A key on the collision-policy screen.
pub open spec fn collision_step(a: App, b: App, key: KeyEvent) -> bool {
    match key.code {
        KeyCode::Char('q') => quits(a, b),
        KeyCode::Esc | KeyCode::Char('b') | KeyCode::Left => goes_to(a, b, a.screen.previous_spec()),
        KeyCode::Up => collision_highlighted(a, b, a.collision.previous_spec()),
        KeyCode::Down => collision_highlighted(a, b, a.collision.next_spec()),
        KeyCode::Enter | KeyCode::Char('n') | KeyCode::Right => collision_confirmed(a, b),
        _ => b == a,
    }
}

fn highlight_collision(a: App, c: CollisionChoice) -> (b: App)
    ensures
        collision_highlighted(a, b, c),
{
    proof {
        reveal(collision_highlighted);
    }
    App { collision: c, ..a }
}

fn confirm_collision(a: App) -> (b: App)
    ensures
        collision_confirmed(a, b),
{
    proof {
        reveal(collision_confirmed);
    }
    let p = a.collision.to_policy();
    let s = a.screen.next();
    App { state: WizardState { collision: p, ..a.state }, screen: s, ..a }
}

pub(crate) fn handle_collision(a: App, key: KeyEvent) -> (b: App)
    ensures
        collision_step(a, b, key),
{
    match key.code {
        KeyCode::Char('q') => quit(a),
        KeyCode::Esc | KeyCode::Char('b') | KeyCode::Left => {
            let s = a.screen.previous();
            go_to(a, s)
        },
        KeyCode::Up => {
            let c = a.collision.previous();
            highlight_collision(a, c)
        },
        KeyCode::Down => {
            let c = a.collision.next();
            highlight_collision(a, c)
        },
        KeyCode::Enter | KeyCode::Char('n') | KeyCode::Right => confirm_collision(a),
        _ => a,
    }
}

/// Leaving the probe screen for the screen it was entered from.
#[verifier::opaque]
pub open spec fn probe_left_back(a: App, b: App) -> bool {
    &&& a.test_upload_back is Some
    &&& b == (App { test_upload_back: None, screen: a.test_upload_back.unwrap(), ..a })
}

/// The probe is requested.
#[verifier::opaque]
pub open spec fn probe_requested(a: App, b: App) -> bool {
    b == (App { test_request: true, ..a })
}

/// After a passed probe: the alias prompt, pre-filled, for a new
/// connection or an OAuth provider.
#[verifier::opaque]
pub open spec fn probe_passed_to_alias(a: App, b: App, seed: u64) -> bool {
    exists|m: App| prepared_inner_alias(a, m, seed) && b == (App { screen: Screen::InnerAlias, ..m })
}

/// A key on the upload-probe screen. Nothing happens while the probe
/// runs. After a passed probe `Enter` goes back where the probe was
/// entered from, else to the alias prompt (a new connection, or Google
/// Drive / OneDrive), else on to the passphrase; otherwise `Enter`
/// requests the probe.
pub open spec fn probe_step(a: App, b: App, key: KeyEvent, ctx: KeyContext) -> bool {
    if a.test_running {
        b == a
    } else {
        match key.code {
            KeyCode::Char('q') => quits(a, b),
            KeyCode::Esc | KeyCode::Char('b') | KeyCode::Left => if a.test_upload_back is Some {
                probe_left_back(a, b)
            } else {
                goes_to(a, b, a.screen.previous_spec())
            },
            KeyCode::Enter => if a.state.last_test_outcome == Some(TestOutcome::Passed) {
                if a.test_upload_back is Some {
                    probe_left_back(a, b)
                } else if a.wizard_mode == WizardMode::AddInnerProfile || a.state.provider_kind
                    == ProviderKind::GoogleDrive || a.state.provider_kind == ProviderKind::OneDrive {
                    probe_passed_to_alias(a, b, ctx.seed)
                } else {
                    goes_to(a, b, a.screen.next_spec())
                }
            } else {
                probe_requested(a, b)
            },
            _ => b == a,
        }
    }
}

fn leave_probe_back(a: App) -> (b: App)
    requires
        a.test_upload_back is Some,
    ensures
        probe_left_back(a, b),
{
    proof {
        reveal(probe_left_back);
    }
    let back = a.test_upload_back.unwrap();
    App { test_upload_back: None, screen: back, ..a }
}

fn request_probe(a: App) -> (b: App)
    ensures
        probe_requested(a, b),
{
    proof {
        reveal(probe_requested);
    }
    App { test_request: true, ..a }
}

fn probe_to_alias(a: App, seed: u64) -> (b: App)
    ensures
        probe_passed_to_alias(a, b, seed),
{
    let m = prepare_inner_alias_input(a, seed);
    let ghost gm = m;
    let b = go_to(m, Screen::InnerAlias);
    proof {
        reveal(goes_to);
        reveal(probe_passed_to_alias);
        assert(prepared_inner_alias(a, gm, seed) && b == (App { screen: Screen::InnerAlias, ..gm }));
    }
    b
}

fn is_passed(o: &Option<TestOutcome>) -> (r: bool)
    ensures
        r == (*o == Some(TestOutcome::Passed)),
{
    match o {
        Some(TestOutcome::Passed) => true,
        _ => false,
    }
}

pub(crate) fn handle_test_upload(a: App, key: KeyEvent, ctx: KeyContext) -> (b: App)
    ensures
        probe_step(a, b, key, ctx),
{
    if a.test_running {
        return a;
    }
    match key.code {
        KeyCode::Char('q') => quit(a),
        KeyCode::Esc | KeyCode::Char('b') | KeyCode::Left => {
            if a.test_upload_back.is_some() {
                leave_probe_back(a)
            } else {
                let s = a.screen.previous();
                go_to(a, s)
            }
        },
        KeyCode::Enter => {
            if is_passed(&a.state.last_test_outcome) {
                if a.test_upload_back.is_some() {
                    leave_probe_back(a)
                } else if a.wizard_mode == WizardMode::AddInnerProfile || a.state.provider_kind
                    == ProviderKind::GoogleDrive || a.state.provider_kind == ProviderKind::OneDrive {
                    probe_to_alias(a, ctx.seed)
                } else {
                    let s = a.screen.next();
                    go_to(a, s)
                }
            } else {
                request_probe(a)
            }
        },
        _ => a,
    }
}

} // verus!
