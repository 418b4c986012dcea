//! What each key does on each screen. Every screen has a step
//! relation between the state before and after a key press; `on_key`
//! is the union of them, plus `Ctrl-C`, which quits everywhere.

use vstd::prelude::*;
use crate::app::{
    App, ProfileSource, enter_push_flow, entered_push_flow, opened_profile, open_profile, quit, quits,
};
use crate::input::{TextInput, empty_input, empty_masked_input};
use crate::keys::{
    ExternalAction, ExternalActionView, KeyCode, KeyContext, KeyEvent, KeyModifiers, is_ctrl_c,
    opt_action_view,
};
use crate::keys_account::{
    account_step, done_step, handle_account, handle_done, handle_login_totp, handle_passphrase,
    handle_push_profile, passphrase_step, push_profile_step, totp_step,
};
use crate::keys_manage::{
    handle_container_picker, handle_inner_alias, handle_profile_manage, handle_profile_unlock,
    inner_alias_step, manage_step, picker_step, unlock_step,
};
use crate::keys_oauth::{
    dropbox_action, dropbox_step, gdrive_action, gdrive_step, handle_login_flow,
    handle_setup_dropbox, handle_setup_gdrive, handle_setup_onedrive, login_flow_action,
    login_flow_step, onedrive_action, onedrive_step,
};
use crate::keys_wizard::{
    auth_step, collision_step, folder_step, handle_auth, handle_collision, handle_provider,
    handle_remote_folder, handle_server, handle_test_upload, probe_step, provider_step,
    server_step,
};
use crate::screens::Screen;
use crate::wizard::{
    AccountFocus, ManageStage, PushFlowMode, PushFlowState, PushFlowView, WelcomeItem, WizardMode,
    fresh_push_flow, next_item, previous_item,
};

verus! {

/// The welcome menu, in display order: the local block (open, if the
/// file exists, then create), the server block when it is offered
/// (open, if the file exists, create, sign in), then quit.
pub open spec fn welcome_items_spec(a: App) -> Seq<WelcomeItem> {
    let local: Seq<WelcomeItem> = if a.local_exists {
        seq![WelcomeItem::OpenLocal]
    } else {
        seq![]
    };
    let remote: Seq<WelcomeItem> = if a.remote_enabled {
        (if a.remote_exists {
            seq![WelcomeItem::OpenRemote]
        } else {
            seq![]
        }) + seq![WelcomeItem::ConfigureRemote, WelcomeItem::SignIn]
    } else {
        seq![]
    };
    local + seq![WelcomeItem::Configure] + remote + seq![WelcomeItem::Quit]
}

impl App {
    /// Items currently selectable on the welcome menu.
    pub fn welcome_items_active(&self) -> (v: Vec<WelcomeItem>)
        ensures
            v@ == welcome_items_spec(*self),
    {
        let mut v: Vec<WelcomeItem> = Vec::new();
        if self.local_exists {
            v.push(WelcomeItem::OpenLocal);
        }
        v.push(WelcomeItem::Configure);
        if self.remote_enabled {
            if self.remote_exists {
                v.push(WelcomeItem::OpenRemote);
            }
            v.push(WelcomeItem::ConfigureRemote);
            v.push(WelcomeItem::SignIn);
        }
        v.push(WelcomeItem::Quit);
        assert(v@ =~= welcome_items_spec(*self));
        v
    }
}

/// Choosing "create" while a local container exists: it is unlocked
/// first, to add a connection to it.
#[verifier::opaque]
pub open spec fn chose_add_to_local(a: App, b: App) -> bool {
    &&& b.manage_passphrase_input@ == empty_masked_input()
    &&& b == (App {
        wizard_mode: WizardMode::AddInnerProfile,
        unlock_source: ProfileSource::Local,
        unlocked_profile: None,
        cached_source: None,
        manage_show_secret: false,
        manage_passphrase_input: b.manage_passphrase_input,
        manage_unlock_error: None,
        manage_stage: ManageStage::Locked,
        screen: Screen::ProfileUnlock,
        ..a
    })
}

/// Choosing "create and push" with a session at hand: straight into
/// the wizard, the session kept for the upload.
#[verifier::opaque]
pub open spec fn chose_configure_remote_with_session(a: App, b: App) -> bool {
    &&& a.cached_session_token is Some
    &&& b.push_flow@ == (PushFlowView {
        session_token: Some(a.cached_session_token.unwrap()@),
        ..fresh_push_flow()
    })
    &&& b == (App {
        wizard_mode: WizardMode::CreateRemote,
        push_flow: b.push_flow,
        post_login_target: None,
        screen: Screen::Provider,
        ..a
    })
}

/// Choosing "create and push" without a session: log in first, then
/// the wizard; `Esc` returns to the welcome menu.
#[verifier::opaque]
pub open spec fn chose_configure_remote_login(a: App, b: App) -> bool {
    &&& b.push_flow@ == fresh_push_flow()
    &&& b.account_email_input@ == empty_input()
    &&& b.account_password_input@ == empty_masked_input()
    &&& b.totp_code_input@ == empty_input()
    &&& b == (App {
        wizard_mode: WizardMode::CreateRemote,
        push_flow: b.push_flow,
        account_focus: AccountFocus::Email,
        account_email_input: b.account_email_input,
        account_password_input: b.account_password_input,
        account_validation_error: None,
        totp_code_input: b.totp_code_input,
        push_back: Some(Screen::Welcome),
        post_login_target: Some(Screen::Provider),
        screen: Screen::Account,
        ..a
    })
}

/// The welcome cursor moves to `w`.
#[verifier::opaque]
pub open spec fn moved_welcome_cursor(a: App, b: App, w: WelcomeItem) -> bool {
    b == (App { welcome_item: w, ..a })
}

/// Choosing "create" with no local container: the wizard starts.
#[verifier::opaque]
pub open spec fn chose_configure_local(a: App, b: App) -> bool {
    b == (App { wizard_mode: WizardMode::CreateLocal, screen: a.screen.next_spec(), ..a })
}

/// A key on the welcome screen.
pub open spec fn welcome_step(a: App, b: App, key: KeyEvent) -> bool {
    let items = welcome_items_spec(a);
    match key.code {
        KeyCode::Char('q') | KeyCode::Esc => quits(a, b),
        KeyCode::Up | KeyCode::Char('k') => moved_welcome_cursor(
            a,
            b,
            previous_item(a.welcome_item, items),
        ),
        KeyCode::Down | KeyCode::Char('j') => moved_welcome_cursor(
            a,
            b,
            next_item(a.welcome_item, items),
        ),
        KeyCode::Enter | KeyCode::Right => match a.welcome_item {
            WelcomeItem::OpenLocal => if a.local_exists {
                opened_profile(a, b, ProfileSource::Local)
            } else {
                b == a
            },
            WelcomeItem::OpenRemote => if a.remote_exists {
                opened_profile(a, b, ProfileSource::Remote)
            } else {
                b == a
            },
            WelcomeItem::Configure => if a.local_exists {
                chose_add_to_local(a, b)
            } else {
                chose_configure_local(a, b)
            },
            WelcomeItem::ConfigureRemote => if a.cached_session_token is Some {
                chose_configure_remote_with_session(a, b)
            } else {
                chose_configure_remote_login(a, b)
            },
            WelcomeItem::SignIn => entered_push_flow(
                a,
                b,
                PushFlowMode::SignIn,
                Some(Screen::Welcome),
            ),
            WelcomeItem::Quit => quits(a, b),
        },
        _ => b == a,
    }
}

fn with_welcome_item(a: App, w: WelcomeItem) -> (b: App)
    ensures
        moved_welcome_cursor(a, b, w),
{
    proof {
        reveal(moved_welcome_cursor);
    }
    App { welcome_item: w, ..a }
}

fn add_to_local(a: App) -> (b: App)
    ensures
        chose_add_to_local(a, b),
{
    proof {
        reveal(chose_add_to_local);
    }
    App {
        wizard_mode: WizardMode::AddInnerProfile,
        unlock_source: ProfileSource::Local,
        unlocked_profile: None,
        cached_source: None,
        manage_show_secret: false,
        manage_passphrase_input: TextInput::masked(),
        manage_unlock_error: None,
        manage_stage: ManageStage::Locked,
        screen: Screen::ProfileUnlock,
        ..a
    }
}

fn configure_local(a: App) -> (b: App)
    ensures
        chose_configure_local(a, b),
{
    proof {
        reveal(chose_configure_local);
    }
    let next = a.screen.next();
    App { wizard_mode: WizardMode::CreateLocal, screen: next, ..a }
}

fn configure_remote_with_session(a: App) -> (b: App)
    requires
        a.cached_session_token is Some,
    ensures
        chose_configure_remote_with_session(a, b),
{
    proof {
        reveal(chose_configure_remote_with_session);
    }
    let token = a.cached_session_token.clone();
    let flow = PushFlowState { session_token: token, ..PushFlowState::default() };
    App {
        wizard_mode: WizardMode::CreateRemote,
        push_flow: flow,
        post_login_target: None,
        screen: Screen::Provider,
        ..a
    }
}

fn configure_remote_login(a: App) -> (b: App)
    ensures
        chose_configure_remote_login(a, b),
{
    proof {
        reveal(chose_configure_remote_login);
    }
    App {
        wizard_mode: WizardMode::CreateRemote,
        push_flow: PushFlowState::default(),
        account_focus: AccountFocus::Email,
        account_email_input: TextInput::new(),
        account_password_input: TextInput::masked(),
        account_validation_error: None,
        totp_code_input: TextInput::new(),
        push_back: Some(Screen::Welcome),
        post_login_target: Some(Screen::Provider),
        screen: Screen::Account,
        ..a
    }
}

fn handle_welcome(a: App, key: KeyEvent) -> (b: App)
    ensures
        welcome_step(a, b, key),
{
    match key.code {
        KeyCode::Char('q') | KeyCode::Esc => quit(a),
        KeyCode::Up | KeyCode::Char('k') => {
            let items = a.welcome_items_active();
            let w = a.welcome_item.previous_in(items.as_slice());
            with_welcome_item(a, w)
        },
        KeyCode::Down | KeyCode::Char('j') => {
            let items = a.welcome_items_active();
            let w = a.welcome_item.next_in(items.as_slice());
            with_welcome_item(a, w)
        },
        KeyCode::Enter | KeyCode::Right => match a.welcome_item {
            WelcomeItem::OpenLocal => if a.local_exists {
                open_profile(a, ProfileSource::Local)
            } else {
                a
            },
            WelcomeItem::OpenRemote => if a.remote_exists {
                open_profile(a, ProfileSource::Remote)
            } else {
                a
            },
            WelcomeItem::Configure => if a.local_exists {
                add_to_local(a)
            } else {
                configure_local(a)
            },
            WelcomeItem::ConfigureRemote => if a.cached_session_token.is_some() {
                configure_remote_with_session(a)
            } else {
                configure_remote_login(a)
            },
            WelcomeItem::SignIn => enter_push_flow(a, PushFlowMode::SignIn, Some(Screen::Welcome)),
            WelcomeItem::Quit => quit(a),
        },
        _ => a,
    }
}

/// What a key does: `Ctrl-C` quits from every screen; any other key
/// does what the current screen's step says.
pub open spec fn key_step(a: App, b: App, key: KeyEvent, ctx: KeyContext) -> bool {
    if is_ctrl_c(key) {
        quits(a, b)
    } else {
        match a.screen {
            Screen::Welcome => welcome_step(a, b, key),
            Screen::Provider => provider_step(a, b, key),
            Screen::NextcloudServer => server_step(a, b, key),
            Screen::NextcloudAuth => auth_step(a, b, key),
            Screen::NextcloudLoginFlow => login_flow_step(a, b, key),
            Screen::SetupGoogleDrive => gdrive_step(a, b, key),
            Screen::SetupOneDrive => onedrive_step(a, b, key),
            Screen::SetupDropbox => dropbox_step(a, b, key),
            Screen::RemoteFolder => folder_step(a, b, key, ctx),
            Screen::Collision => collision_step(a, b, key),
            Screen::TestUpload => probe_step(a, b, key, ctx),
            Screen::ProfilePassphrase => passphrase_step(a, b, key, ctx),
            Screen::Done => done_step(a, b, key),
            Screen::Account => account_step(a, b, key, ctx),
            Screen::LoginTotp => totp_step(a, b, key),
            Screen::PushProfile => push_profile_step(a, b, key, ctx),
            Screen::ProfileUnlock => unlock_step(a, b, key),
            Screen::ProfileManage => manage_step(a, b, key),
            Screen::ContainerPicker => picker_step(a, b, key),
            Screen::InnerAlias => inner_alias_step(a, b, key, ctx),
        }
    }
}

/// The outside action a key asks for: only the login-flow and OAuth
/// screens ask for any.
pub open spec fn key_action(a: App, key: KeyEvent) -> Option<ExternalActionView> {
    if is_ctrl_c(key) {
        None
    } else {
        match a.screen {
            Screen::NextcloudLoginFlow => login_flow_action(a, key),
            Screen::SetupGoogleDrive => gdrive_action(a, key),
            Screen::SetupOneDrive => onedrive_action(a, key),
            Screen::SetupDropbox => dropbox_action(a, key),
            _ => None,
        }
    }
}

fn step(a: App, key: KeyEvent, ctx: KeyContext) -> (r: (App, Option<ExternalAction>))
    ensures
        key_step(a, r.0, key, ctx),
        opt_action_view(r.1) == key_action(a, key),
{
    if key.modifiers == KeyModifiers::Control && key.code == KeyCode::Char('c') {
        return (quit(a), None);
    }
    match a.screen {
        Screen::Welcome => (handle_welcome(a, key), None),
        Screen::Provider => (handle_provider(a, key), None),
        Screen::NextcloudServer => (handle_server(a, key), None),
        Screen::NextcloudAuth => (handle_auth(a, key), None),
        Screen::NextcloudLoginFlow => handle_login_flow(a, key),
        Screen::SetupGoogleDrive => handle_setup_gdrive(a, key),
        Screen::SetupOneDrive => handle_setup_onedrive(a, key),
        Screen::SetupDropbox => handle_setup_dropbox(a, key),
        Screen::RemoteFolder => (handle_remote_folder(a, key, ctx), None),
        Screen::Collision => (handle_collision(a, key), None),
        Screen::TestUpload => (handle_test_upload(a, key, ctx), None),
        Screen::ProfilePassphrase => (handle_passphrase(a, key, ctx), None),
        Screen::Done => (handle_done(a, key), None),
        Screen::Account => (handle_account(a, key, ctx), None),
        Screen::LoginTotp => (handle_login_totp(a, key), None),
        Screen::PushProfile => (handle_push_profile(a, key, ctx), None),
        Screen::ProfileUnlock => (handle_profile_unlock(a, key), None),
        Screen::ProfileManage => (handle_profile_manage(a, key), None),
        Screen::ContainerPicker => (handle_container_picker(a, key), None),
        Screen::InnerAlias => (handle_inner_alias(a, key, ctx), None),
    }
}

impl App {
    /// Applies one key press. Returns the clipboard or browser action
    /// the key asks the driver to carry out, if any.
    pub fn on_key(&mut self, key: KeyEvent, ctx: KeyContext) -> (r: Option<ExternalAction>)
        ensures
            key_step(*old(self), *final(self), key, ctx),
            opt_action_view(r) == key_action(*old(self), key),
    {
        let a = self.take_out();
        let (b, action) = step(a, key, ctx);
        *self = b;
        action
    }
}

} // verus!
