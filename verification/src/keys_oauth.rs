//! Keys on the login-flow and OAuth setup screens. Copying a URL,
//! opening it and pasting a code are handed to the driver as actions.

use vstd::prelude::*;
use crate::app::{App, go_to, goes_to};
use crate::input::TextInputView;
use crate::keys::{ExternalAction, ExternalActionView, KeyCode, KeyEvent, KeyModifiers, UrlTarget};
use crate::screens::Screen;
use crate::text::{char_count, char_is_ascii_alnum, from_str};
use crate::wizard::{
    DeviceSetupView, DeviceStageView, DropboxSetupStage, DropboxSetupState, DropboxSetupView,
    DropboxStageView, GoogleDriveSetupStage, GoogleDriveSetupState, LoginFlowStage,
    LoginFlowState, LoginFlowStateView, LoginFlowStageView, code_char_ok, device_qr_url,
    fresh_device_setup, fresh_dropbox_setup, fresh_login_flow, pasted_code_ok,
};

verus! {

/// The login-flow state becomes `lf`.
#[verifier::opaque]
pub open spec fn login_flow_replaced(a: App, b: App, lf: LoginFlowState) -> bool {
    b == (App { login_flow: lf, ..a })
}

/// The login flow is reset and its start requested again.
#[verifier::opaque]
pub open spec fn login_flow_restarted(a: App, b: App) -> bool {
    &&& b.login_flow@ == (LoginFlowStateView {
        stage: LoginFlowStageView::Initiating,
        ..fresh_login_flow()
    })
    &&& b == (App { login_flow: b.login_flow, login_flow_request_init: true, ..a })
}

/// The login flow is dropped and the credentials screen opens.
#[verifier::opaque]
pub open spec fn login_flow_abandoned(a: App, b: App) -> bool {
    &&& b.login_flow@ == fresh_login_flow()
    &&& b == (App { login_flow: b.login_flow, screen: Screen::NextcloudAuth, ..a })
}

pub open spec fn is_retry_key(k: KeyCode) -> bool {
    k == KeyCode::Char('r') || k == KeyCode::Char('R')
}

/// A key on the Nextcloud login-flow screen. The URL window takes
/// every key but `Esc`; `r` retries a failed flow; `q` and `i` switch
/// the QR code and its inline image while polling; `u` opens the URL
/// window; `Enter` moves on once the flow is done.
pub open spec fn login_flow_step(a: App, b: App, key: KeyEvent) -> bool {
    let lf = a.login_flow;
    if lf.show_url_modal {
        if key.code == KeyCode::Esc {
            login_flow_replaced(a, b, LoginFlowState { show_url_modal: false, ..lf })
        } else {
            b == a
        }
    } else if lf.stage is Failed && is_retry_key(key.code) {
        login_flow_restarted(a, b)
    } else {
        match key.code {
            KeyCode::Esc => login_flow_abandoned(a, b),
            KeyCode::Char('q') => if lf.stage is Polling {
                login_flow_replaced(a, b, LoginFlowState { show_qr: !lf.show_qr, ..lf })
            } else {
                b == a
            },
            KeyCode::Char('i') => if lf.stage is Polling {
                login_flow_replaced(
                    a,
                    b,
                    LoginFlowState { disable_inline_qr: !lf.disable_inline_qr, ..lf },
                )
            } else {
                b == a
            },
            KeyCode::Char('u') => if lf.login_url@.len() > 0 {
                login_flow_replaced(a, b, LoginFlowState { show_url_modal: true, ..lf })
            } else {
                b == a
            },
            KeyCode::Enter => if lf.stage is Done {
                goes_to(a, b, Screen::RemoteFolder)
            } else {
                b == a
            },
            _ => b == a,
        }
    }
}

/// `c` copies and `o` opens the login URL, when there is one.
pub open spec fn login_flow_action(a: App, key: KeyEvent) -> Option<ExternalActionView> {
    let lf = a.login_flow;
    if lf.show_url_modal || (lf.stage is Failed && is_retry_key(key.code)) || lf.login_url@.len()
        == 0 {
        None
    } else if key.code == KeyCode::Char('c') {
        Some(ExternalActionView::CopyUrl { target: UrlTarget::LoginFlow, url: lf.login_url@ })
    } else if key.code == KeyCode::Char('o') {
        Some(ExternalActionView::OpenUrl { target: UrlTarget::LoginFlow, url: lf.login_url@ })
    } else {
        None
    }
}

fn close_login_modal(a: App) -> (b: App)
    ensures
        login_flow_replaced(a, b, LoginFlowState { show_url_modal: false, ..a.login_flow }),
{
    proof {
        reveal(login_flow_replaced);
    }
    App { login_flow: LoginFlowState { show_url_modal: false, ..a.login_flow }, ..a }
}

fn open_login_modal(a: App) -> (b: App)
    ensures
        login_flow_replaced(a, b, LoginFlowState { show_url_modal: true, ..a.login_flow }),
{
    proof {
        reveal(login_flow_replaced);
    }
    App { login_flow: LoginFlowState { show_url_modal: true, ..a.login_flow }, ..a }
}

fn toggle_login_qr(a: App) -> (b: App)
    ensures
        login_flow_replaced(a, b, LoginFlowState { show_qr: !a.login_flow.show_qr, ..a.login_flow }),
{
    proof {
        reveal(login_flow_replaced);
    }
    let v = !a.login_flow.show_qr;
    App { login_flow: LoginFlowState { show_qr: v, ..a.login_flow }, ..a }
}

fn toggle_login_inline(a: App) -> (b: App)
    ensures
        login_flow_replaced(
            a,
            b,
            LoginFlowState { disable_inline_qr: !a.login_flow.disable_inline_qr, ..a.login_flow },
        ),
{
    proof {
        reveal(login_flow_replaced);
    }
    let v = !a.login_flow.disable_inline_qr;
    App { login_flow: LoginFlowState { disable_inline_qr: v, ..a.login_flow }, ..a }
}

fn restart_login_flow(a: App) -> (b: App)
    ensures
        login_flow_restarted(a, b),
{
    proof {
        reveal(login_flow_restarted);
    }
    App {
        login_flow: LoginFlowState { stage: LoginFlowStage::Initiating, ..LoginFlowState::default() },
        login_flow_request_init: true,
        ..a
    }
}

fn abandon_login_flow(a: App) -> (b: App)
    ensures
        login_flow_abandoned(a, b),
{
    proof {
        reveal(login_flow_abandoned);
    }
    App { login_flow: LoginFlowState::default(), screen: Screen::NextcloudAuth, ..a }
}

fn login_action(a: &App, key: KeyEvent) -> (r: Option<ExternalAction>)
    ensures
        crate::keys::opt_action_view(r) == login_flow_action(*a, key),
{
    let failed = match a.login_flow.stage {
        LoginFlowStage::Failed(_) => true,
        _ => false,
    };
    let retry = key.code == KeyCode::Char('r') || key.code == KeyCode::Char('R');
    if a.login_flow.show_url_modal || (failed && retry) || a.login_flow.login_url.as_str().is_empty() {
        None
    } else if key.code == KeyCode::Char('c') {
        Some(ExternalAction::CopyUrl { target: UrlTarget::LoginFlow, url: a.login_flow.login_url.clone() })
    } else if key.code == KeyCode::Char('o') {
        Some(ExternalAction::OpenUrl { target: UrlTarget::LoginFlow, url: a.login_flow.login_url.clone() })
    } else {
        None
    }
}

pub(crate) fn handle_login_flow(a: App, key: KeyEvent) -> (r: (App, Option<ExternalAction>))
    ensures
        login_flow_step(a, r.0, key),
        crate::keys::opt_action_view(r.1) == login_flow_action(a, key),
{
    let action = login_action(&a, key);
    let failed = match a.login_flow.stage {
        LoginFlowStage::Failed(_) => true,
        _ => false,
    };
    let polling = match a.login_flow.stage {
        LoginFlowStage::Polling => true,
        _ => false,
    };
    let done = match a.login_flow.stage {
        LoginFlowStage::Done => true,
        _ => false,
    };
    let b = if a.login_flow.show_url_modal {
        if key.code == KeyCode::Esc {
            close_login_modal(a)
        } else {
            a
        }
    } else if failed && (key.code == KeyCode::Char('r') || key.code == KeyCode::Char('R')) {
        restart_login_flow(a)
    } else {
        match key.code {
            KeyCode::Esc => abandon_login_flow(a),
            KeyCode::Char('q') => if polling {
                toggle_login_qr(a)
            } else {
                a
            },
            KeyCode::Char('i') => if polling {
                toggle_login_inline(a)
            } else {
                a
            },
            KeyCode::Char('u') => if !a.login_flow.login_url.as_str().is_empty() {
                open_login_modal(a)
            } else {
                a
            },
            KeyCode::Enter => if done {
                go_to(a, Screen::RemoteFolder)
            } else {
                a
            },
            _ => a,
        }
    };
    (b, action)
}

/// The Google Drive setup state becomes `s`.
#[verifier::opaque]
pub open spec fn gdrive_replaced(a: App, b: App, s: GoogleDriveSetupState) -> bool {
    b == (App { gdrive_setup: s, ..a })
}

/// The Google Drive device flow is reset and its start requested again.
#[verifier::opaque]
pub open spec fn gdrive_restarted(a: App, b: App) -> bool {
    &&& b.gdrive_setup@ == (DeviceSetupView { stage: DeviceStageView::Initiating, ..fresh_device_setup() })
    &&& b == (App { gdrive_setup: b.gdrive_setup, gdrive_request_init: true, ..a })
}

/// The Google Drive device flow is dropped, its requests withdrawn, and the
/// provider picker opens.
#[verifier::opaque]
pub open spec fn gdrive_abandoned(a: App, b: App) -> bool {
    &&& b.gdrive_setup@ == fresh_device_setup()
    &&& b == (App {
        gdrive_setup: b.gdrive_setup,
        gdrive_request_init: false,
        gdrive_request_email: false,
        screen: Screen::Provider,
        ..a
    })
}

/// A key on the Google Drive setup screen; as on the login-flow screen, with
/// `u` needing a verification URI and `Enter` leading to the collision
/// policy once the flow is done.
pub open spec fn gdrive_step(a: App, b: App, key: KeyEvent) -> bool {
    let g = a.gdrive_setup;
    if g.show_url_modal {
        if key.code == KeyCode::Esc {
            gdrive_replaced(a, b, GoogleDriveSetupState { show_url_modal: false, ..g })
        } else {
            b == a
        }
    } else if g.stage is Failed && is_retry_key(key.code) {
        gdrive_restarted(a, b)
    } else {
        match key.code {
            KeyCode::Esc => gdrive_abandoned(a, b),
            KeyCode::Char('q') => if g.stage is Polling {
                gdrive_replaced(a, b, GoogleDriveSetupState { show_qr: !g.show_qr, ..g })
            } else {
                b == a
            },
            KeyCode::Char('i') => if g.stage is Polling {
                gdrive_replaced(
                    a,
                    b,
                    GoogleDriveSetupState { disable_inline_qr: !g.disable_inline_qr, ..g },
                )
            } else {
                b == a
            },
            KeyCode::Char('u') => if g.verification_uri@.len() > 0 {
                gdrive_replaced(a, b, GoogleDriveSetupState { show_url_modal: true, ..g })
            } else {
                b == a
            },
            KeyCode::Enter => if g.stage is Done {
                goes_to(a, b, Screen::Collision)
            } else {
                b == a
            },
            _ => b == a,
        }
    }
}

/// `c` copies and `o` opens the URL the QR code shows, when there is one.
pub open spec fn gdrive_action(a: App, key: KeyEvent) -> Option<ExternalActionView> {
    let g = a.gdrive_setup;
    let url = device_qr_url(g@);
    if g.show_url_modal || (g.stage is Failed && is_retry_key(key.code)) || url.len() == 0 {
        None
    } else if key.code == KeyCode::Char('c') {
        Some(ExternalActionView::CopyUrl { target: UrlTarget::GoogleDrive, url: url })
    } else if key.code == KeyCode::Char('o') {
        Some(ExternalActionView::OpenUrl { target: UrlTarget::GoogleDrive, url: url })
    } else {
        None
    }
}

fn gdrive_close_modal(a: App) -> (b: App)
    ensures
        gdrive_replaced(a, b, GoogleDriveSetupState { show_url_modal: false, ..a.gdrive_setup }),
{
    proof {
        reveal(gdrive_replaced);
    }
    App { gdrive_setup: GoogleDriveSetupState { show_url_modal: false, ..a.gdrive_setup }, ..a }
}

fn gdrive_open_modal(a: App) -> (b: App)
    ensures
        gdrive_replaced(a, b, GoogleDriveSetupState { show_url_modal: true, ..a.gdrive_setup }),
{
    proof {
        reveal(gdrive_replaced);
    }
    App { gdrive_setup: GoogleDriveSetupState { show_url_modal: true, ..a.gdrive_setup }, ..a }
}

fn gdrive_toggle_qr(a: App) -> (b: App)
    ensures
        gdrive_replaced(a, b, GoogleDriveSetupState { show_qr: !a.gdrive_setup.show_qr, ..a.gdrive_setup }),
{
    proof {
        reveal(gdrive_replaced);
    }
    let v = !a.gdrive_setup.show_qr;
    App { gdrive_setup: GoogleDriveSetupState { show_qr: v, ..a.gdrive_setup }, ..a }
}

fn gdrive_toggle_inline(a: App) -> (b: App)
    ensures
        gdrive_replaced(
            a,
            b,
            GoogleDriveSetupState { disable_inline_qr: !a.gdrive_setup.disable_inline_qr, ..a.gdrive_setup },
        ),
{
    proof {
        reveal(gdrive_replaced);
    }
    let v = !a.gdrive_setup.disable_inline_qr;
    App { gdrive_setup: GoogleDriveSetupState { disable_inline_qr: v, ..a.gdrive_setup }, ..a }
}

fn gdrive_restart(a: App) -> (b: App)
    ensures
        gdrive_restarted(a, b),
{
    proof {
        reveal(gdrive_restarted);
    }
    App {
        gdrive_setup: GoogleDriveSetupState {
            stage: GoogleDriveSetupStage::Initiating,
            ..GoogleDriveSetupState::default()
        },
        gdrive_request_init: true,
        ..a
    }
}

fn gdrive_abandon(a: App) -> (b: App)
    ensures
        gdrive_abandoned(a, b),
{
    proof {
        reveal(gdrive_abandoned);
    }
    App {
        gdrive_setup: GoogleDriveSetupState::default(),
        gdrive_request_init: false,
        gdrive_request_email: false,
        screen: Screen::Provider,
        ..a
    }
}

fn gdrive_key_action(a: &App, key: KeyEvent) -> (r: Option<ExternalAction>)
    ensures
        crate::keys::opt_action_view(r) == gdrive_action(*a, key),
{
    let failed = match a.gdrive_setup.stage {
        GoogleDriveSetupStage::Failed(_) => true,
        _ => false,
    };
    let retry = key.code == KeyCode::Char('r') || key.code == KeyCode::Char('R');
    let url = a.gdrive_setup.qr_url();
    if a.gdrive_setup.show_url_modal || (failed && retry) || url.is_empty() {
        None
    } else if key.code == KeyCode::Char('c') {
        Some(ExternalAction::CopyUrl { target: UrlTarget::GoogleDrive, url: from_str(url) })
    } else if key.code == KeyCode::Char('o') {
        Some(ExternalAction::OpenUrl { target: UrlTarget::GoogleDrive, url: from_str(url) })
    } else {
        None
    }
}

pub(crate) fn handle_setup_gdrive(a: App, key: KeyEvent) -> (r: (App, Option<ExternalAction>))
    ensures
        gdrive_step(a, r.0, key),
        crate::keys::opt_action_view(r.1) == gdrive_action(a, key),
{
    let action = gdrive_key_action(&a, key);
    let failed = match a.gdrive_setup.stage {
        GoogleDriveSetupStage::Failed(_) => true,
        _ => false,
    };
    let polling = match a.gdrive_setup.stage {
        GoogleDriveSetupStage::Polling => true,
        _ => false,
    };
    let done = match a.gdrive_setup.stage {
        GoogleDriveSetupStage::Done => true,
        _ => false,
    };
    let b = if a.gdrive_setup.show_url_modal {
        if key.code == KeyCode::Esc {
            gdrive_close_modal(a)
        } else {
            a
        }
    } else if failed && (key.code == KeyCode::Char('r') || key.code == KeyCode::Char('R')) {
        gdrive_restart(a)
    } else {
        match key.code {
            KeyCode::Esc => gdrive_abandon(a),
            KeyCode::Char('q') => if polling {
                gdrive_toggle_qr(a)
            } else {
                a
            },
            KeyCode::Char('i') => if polling {
                gdrive_toggle_inline(a)
            } else {
                a
            },
            KeyCode::Char('u') => if !a.gdrive_setup.verification_uri.as_str().is_empty() {
                gdrive_open_modal(a)
            } else {
                a
            },
            KeyCode::Enter => if done {
                go_to(a, Screen::Collision)
            } else {
                a
            },
            _ => a,
        }
    };
    (b, action)
}

/// The OneDrive setup state becomes `s`.
#[verifier::opaque]
pub open spec fn onedrive_replaced(a: App, b: App, s: GoogleDriveSetupState) -> bool {
    b == (App { onedrive_setup: s, ..a })
}

/// The OneDrive device flow is reset and its start requested again.
#[verifier::opaque]
pub open spec fn onedrive_restarted(a: App, b: App) -> bool {
    &&& b.onedrive_setup@ == (DeviceSetupView { stage: DeviceStageView::Initiating, ..fresh_device_setup() })
    &&& b == (App { onedrive_setup: b.onedrive_setup, onedrive_request_init: true, ..a })
}

/// The OneDrive device flow is dropped, its requests withdrawn, and the
/// provider picker opens.
#[verifier::opaque]
pub open spec fn onedrive_abandoned(a: App, b: App) -> bool {
    &&& b.onedrive_setup@ == fresh_device_setup()
    &&& b == (App {
        onedrive_setup: b.onedrive_setup,
        onedrive_request_init: false,
        onedrive_request_email: false,
        screen: Screen::Provider,
        ..a
    })
}

/// A key on the OneDrive setup screen; as on the login-flow screen, with
/// `u` needing a verification URI and `Enter` leading to the collision
/// policy once the flow is done.
pub open spec fn onedrive_step(a: App, b: App, key: KeyEvent) -> bool {
    let g = a.onedrive_setup;
    if g.show_url_modal {
        if key.code == KeyCode::Esc {
            onedrive_replaced(a, b, GoogleDriveSetupState { show_url_modal: false, ..g })
        } else {
            b == a
        }
    } else if g.stage is Failed && is_retry_key(key.code) {
        onedrive_restarted(a, b)
    } else {
        match key.code {
            KeyCode::Esc => onedrive_abandoned(a, b),
            KeyCode::Char('q') => if g.stage is Polling {
                onedrive_replaced(a, b, GoogleDriveSetupState { show_qr: !g.show_qr, ..g })
            } else {
                b == a
            },
            KeyCode::Char('i') => if g.stage is Polling {
                onedrive_replaced(
                    a,
                    b,
                    GoogleDriveSetupState { disable_inline_qr: !g.disable_inline_qr, ..g },
                )
            } else {
                b == a
            },
            KeyCode::Char('u') => if g.verification_uri@.len() > 0 {
                onedrive_replaced(a, b, GoogleDriveSetupState { show_url_modal: true, ..g })
            } else {
                b == a
            },
            KeyCode::Enter => if g.stage is Done {
                goes_to(a, b, Screen::Collision)
            } else {
                b == a
            },
            _ => b == a,
        }
    }
}

/// `c` copies and `o` opens the URL the QR code shows, when there is one.
pub open spec fn onedrive_action(a: App, key: KeyEvent) -> Option<ExternalActionView> {
    let g = a.onedrive_setup;
    let url = device_qr_url(g@);
    if g.show_url_modal || (g.stage is Failed && is_retry_key(key.code)) || url.len() == 0 {
        None
    } else if key.code == KeyCode::Char('c') {
        Some(ExternalActionView::CopyUrl { target: UrlTarget::OneDrive, url: url })
    } else if key.code == KeyCode::Char('o') {
        Some(ExternalActionView::OpenUrl { target: UrlTarget::OneDrive, url: url })
    } else {
        None
    }
}

fn onedrive_close_modal(a: App) -> (b: App)
    ensures
        onedrive_replaced(a, b, GoogleDriveSetupState { show_url_modal: false, ..a.onedrive_setup }),
{
    proof {
        reveal(onedrive_replaced);
    }
    App { onedrive_setup: GoogleDriveSetupState { show_url_modal: false, ..a.onedrive_setup }, ..a }
}

fn onedrive_open_modal(a: App) -> (b: App)
    ensures
        onedrive_replaced(a, b, GoogleDriveSetupState { show_url_modal: true, ..a.onedrive_setup }),
{
    proof {
        reveal(onedrive_replaced);
    }
    App { onedrive_setup: GoogleDriveSetupState { show_url_modal: true, ..a.onedrive_setup }, ..a }
}

fn onedrive_toggle_qr(a: App) -> (b: App)
    ensures
        onedrive_replaced(a, b, GoogleDriveSetupState { show_qr: !a.onedrive_setup.show_qr, ..a.onedrive_setup }),
{
    proof {
        reveal(onedrive_replaced);
    }
    let v = !a.onedrive_setup.show_qr;
    App { onedrive_setup: GoogleDriveSetupState { show_qr: v, ..a.onedrive_setup }, ..a }
}

fn onedrive_toggle_inline(a: App) -> (b: App)
    ensures
        onedrive_replaced(
            a,
            b,
            GoogleDriveSetupState { disable_inline_qr: !a.onedrive_setup.disable_inline_qr, ..a.onedrive_setup },
        ),
{
    proof {
        reveal(onedrive_replaced);
    }
    let v = !a.onedrive_setup.disable_inline_qr;
    App { onedrive_setup: GoogleDriveSetupState { disable_inline_qr: v, ..a.onedrive_setup }, ..a }
}

fn onedrive_restart(a: App) -> (b: App)
    ensures
        onedrive_restarted(a, b),
{
    proof {
        reveal(onedrive_restarted);
    }
    App {
        onedrive_setup: GoogleDriveSetupState {
            stage: GoogleDriveSetupStage::Initiating,
            ..GoogleDriveSetupState::default()
        },
        onedrive_request_init: true,
        ..a
    }
}

fn onedrive_abandon(a: App) -> (b: App)
    ensures
        onedrive_abandoned(a, b),
{
    proof {
        reveal(onedrive_abandoned);
    }
    App {
        onedrive_setup: GoogleDriveSetupState::default(),
        onedrive_request_init: false,
        onedrive_request_email: false,
        screen: Screen::Provider,
        ..a
    }
}

fn onedrive_key_action(a: &App, key: KeyEvent) -> (r: Option<ExternalAction>)
    ensures
        crate::keys::opt_action_view(r) == onedrive_action(*a, key),
{
    let failed = match a.onedrive_setup.stage {
        GoogleDriveSetupStage::Failed(_) => true,
        _ => false,
    };
    let retry = key.code == KeyCode::Char('r') || key.code == KeyCode::Char('R');
    let url = a.onedrive_setup.qr_url();
    if a.onedrive_setup.show_url_modal || (failed && retry) || url.is_empty() {
        None
    } else if key.code == KeyCode::Char('c') {
        Some(ExternalAction::CopyUrl { target: UrlTarget::OneDrive, url: from_str(url) })
    } else if key.code == KeyCode::Char('o') {
        Some(ExternalAction::OpenUrl { target: UrlTarget::OneDrive, url: from_str(url) })
    } else {
        None
    }
}

pub(crate) fn handle_setup_onedrive(a: App, key: KeyEvent) -> (r: (App, Option<ExternalAction>))
    ensures
        onedrive_step(a, r.0, key),
        crate::keys::opt_action_view(r.1) == onedrive_action(a, key),
{
    let action = onedrive_key_action(&a, key);
    let failed = match a.onedrive_setup.stage {
        GoogleDriveSetupStage::Failed(_) => true,
        _ => false,
    };
    let polling = match a.onedrive_setup.stage {
        GoogleDriveSetupStage::Polling => true,
        _ => false,
    };
    let done = match a.onedrive_setup.stage {
        GoogleDriveSetupStage::Done => true,
        _ => false,
    };
    let b = if a.onedrive_setup.show_url_modal {
        if key.code == KeyCode::Esc {
            onedrive_close_modal(a)
        } else {
            a
        }
    } else if failed && (key.code == KeyCode::Char('r') || key.code == KeyCode::Char('R')) {
        onedrive_restart(a)
    } else {
        match key.code {
            KeyCode::Esc => onedrive_abandon(a),
            KeyCode::Char('q') => if polling {
                onedrive_toggle_qr(a)
            } else {
                a
            },
            KeyCode::Char('i') => if polling {
                onedrive_toggle_inline(a)
            } else {
                a
            },
            KeyCode::Char('u') => if !a.onedrive_setup.verification_uri.as_str().is_empty() {
                onedrive_open_modal(a)
            } else {
                a
            },
            KeyCode::Enter => if done {
                go_to(a, Screen::Collision)
            } else {
                a
            },
            _ => a,
        }
    };
    (b, action)
}

/// Longest code the paste field takes, in characters.
pub const MAX_PASTED_CODE_LEN: usize = 200;

/// The Dropbox setup state becomes `s`.
#[verifier::opaque]
pub open spec fn dropbox_replaced(a: App, b: App, s: DropboxSetupState) -> bool {
    b == (App { dropbox_setup: s, ..a })
}

/// The Dropbox flow is reset and its authorize URL requested again.
#[verifier::opaque]
pub open spec fn dropbox_restarted(a: App, b: App) -> bool {
    &&& b.dropbox_setup@ == (DropboxSetupView { stage: DropboxStageView::Initiating, ..fresh_dropbox_setup() })
    &&& b == (App { dropbox_setup: b.dropbox_setup, dropbox_request_init: true, ..a })
}

/// The Dropbox flow is dropped, its requests withdrawn, and the
/// provider picker opens.
#[verifier::opaque]
pub open spec fn dropbox_abandoned(a: App, b: App) -> bool {
    &&& b.dropbox_setup@ == fresh_dropbox_setup()
    &&& b == (App {
        dropbox_setup: b.dropbox_setup,
        dropbox_request_init: false,
        dropbox_request_exchange: false,
        dropbox_request_email: false,
        screen: Screen::Provider,
        ..a
    })
}

/// The paste field becomes `t`.
#[verifier::opaque]
pub open spec fn dropbox_code_edited(a: App, b: App, t: TextInputView) -> bool {
    &&& b.dropbox_setup@ == (DropboxSetupView { pasted_code: t, ..a.dropbox_setup@ })
    &&& b == (App { dropbox_setup: b.dropbox_setup, ..a })
}

/// The pasted code is sent for exchange.
#[verifier::opaque]
pub open spec fn dropbox_exchange_requested(a: App, b: App) -> bool {
    b == (App {
        dropbox_setup: DropboxSetupState { stage: DropboxSetupStage::Exchanging, ..a.dropbox_setup },
        dropbox_request_exchange: true,
        ..a
    })
}

/// The paste field takes `c`: a code character, with room left.
pub open spec fn dropbox_takes(a: App, c: char) -> bool {
    code_char_ok(c) && a.dropbox_setup.pasted_code@.value.len() < MAX_PASTED_CODE_LEN
}

/// A key on the Dropbox setup screen. The URL window takes every key
/// but `Esc`; `r` retries a failed flow; `Esc` leaves. While the screen
/// waits for the pasted code, `q`, `i` and `u` work as on the other
/// OAuth screens, `Backspace` and code characters edit the code (up to
/// 200 characters), and `Enter` sends a plausible code for exchange;
/// `Enter` moves on once the flow is done.
pub open spec fn dropbox_step(a: App, b: App, key: KeyEvent) -> bool {
    let d = a.dropbox_setup;
    let editable = d.stage is AwaitingPaste;
    if d.show_url_modal {
        if key.code == KeyCode::Esc {
            dropbox_replaced(a, b, DropboxSetupState { show_url_modal: false, ..d })
        } else {
            b == a
        }
    } else if d.stage is Failed && is_retry_key(key.code) {
        dropbox_restarted(a, b)
    } else if key.code == KeyCode::Esc {
        dropbox_abandoned(a, b)
    } else if editable && key.code == KeyCode::Char('q') {
        dropbox_replaced(a, b, DropboxSetupState { show_qr: !d.show_qr, ..d })
    } else if editable && key.code == KeyCode::Char('i') {
        dropbox_replaced(a, b, DropboxSetupState { disable_inline_qr: !d.disable_inline_qr, ..d })
    } else if editable && (key.code == KeyCode::Char('c') || key.code == KeyCode::Char('o')) {
        b == a
    } else if editable && key.code == KeyCode::Char('u') {
        if d.authorize_url@.len() > 0 {
            dropbox_replaced(a, b, DropboxSetupState { show_url_modal: true, ..d })
        } else {
            b == a
        }
    } else if editable && key.code == KeyCode::Char('v') && key.modifiers == KeyModifiers::Control {
        b == a
    } else if editable && key.code == KeyCode::Backspace {
        dropbox_code_edited(a, b, d.pasted_code@.backspaced())
    } else if editable && key.code is Char && dropbox_takes(a, key.code->Char_0) {
        dropbox_code_edited(a, b, d.pasted_code@.typed(key.code->Char_0))
    } else if key.code == KeyCode::Enter {
        if editable && pasted_code_ok(d.pasted_code@.value) {
            dropbox_exchange_requested(a, b)
        } else if d.stage is Done {
            goes_to(a, b, Screen::Collision)
        } else {
            b == a
        }
    } else {
        b == a
    }
}

/// While the code is awaited: `c` copies and `o` opens the authorize
/// URL, when there is one, and `Ctrl-V` asks for the clipboard.
pub open spec fn dropbox_action(a: App, key: KeyEvent) -> Option<ExternalActionView> {
    let d = a.dropbox_setup;
    let url = d.authorize_url@;
    if d.show_url_modal || (d.stage is Failed && is_retry_key(key.code)) || !(d.stage is AwaitingPaste) {
        None
    } else if key.code == KeyCode::Char('c') && url.len() > 0 {
        Some(ExternalActionView::CopyUrl { target: UrlTarget::Dropbox, url: url })
    } else if key.code == KeyCode::Char('o') && url.len() > 0 {
        Some(ExternalActionView::OpenUrl { target: UrlTarget::Dropbox, url: url })
    } else if key.code == KeyCode::Char('v') && key.modifiers == KeyModifiers::Control {
        Some(ExternalActionView::PasteCode)
    } else {
        None
    }
}

fn dropbox_close_modal(a: App) -> (b: App)
    ensures
        dropbox_replaced(a, b, DropboxSetupState { show_url_modal: false, ..a.dropbox_setup }),
{
    proof {
        reveal(dropbox_replaced);
    }
    App { dropbox_setup: DropboxSetupState { show_url_modal: false, ..a.dropbox_setup }, ..a }
}

fn dropbox_open_modal(a: App) -> (b: App)
    ensures
        dropbox_replaced(a, b, DropboxSetupState { show_url_modal: true, ..a.dropbox_setup }),
{
    proof {
        reveal(dropbox_replaced);
    }
    App { dropbox_setup: DropboxSetupState { show_url_modal: true, ..a.dropbox_setup }, ..a }
}

fn dropbox_toggle_qr(a: App) -> (b: App)
    ensures
        dropbox_replaced(a, b, DropboxSetupState { show_qr: !a.dropbox_setup.show_qr, ..a.dropbox_setup }),
{
    proof {
        reveal(dropbox_replaced);
    }
    let v = !a.dropbox_setup.show_qr;
    App { dropbox_setup: DropboxSetupState { show_qr: v, ..a.dropbox_setup }, ..a }
}

fn dropbox_toggle_inline(a: App) -> (b: App)
    ensures
        dropbox_replaced(
            a,
            b,
            DropboxSetupState { disable_inline_qr: !a.dropbox_setup.disable_inline_qr, ..a.dropbox_setup },
        ),
{
    proof {
        reveal(dropbox_replaced);
    }
    let v = !a.dropbox_setup.disable_inline_qr;
    App { dropbox_setup: DropboxSetupState { disable_inline_qr: v, ..a.dropbox_setup }, ..a }
}

fn dropbox_restart(a: App) -> (b: App)
    ensures
        dropbox_restarted(a, b),
{
    proof {
        reveal(dropbox_restarted);
    }
    App {
        dropbox_setup: DropboxSetupState {
            stage: DropboxSetupStage::Initiating,
            ..DropboxSetupState::default()
        },
        dropbox_request_init: true,
        ..a
    }
}

fn dropbox_abandon(a: App) -> (b: App)
    ensures
        dropbox_abandoned(a, b),
{
    proof {
        reveal(dropbox_abandoned);
    }
    App {
        dropbox_setup: DropboxSetupState::default(),
        dropbox_request_init: false,
        dropbox_request_exchange: false,
        dropbox_request_email: false,
        screen: Screen::Provider,
        ..a
    }
}

fn dropbox_backspace(a: App) -> (b: App)
    ensures
        dropbox_code_edited(a, b, a.dropbox_setup.pasted_code@.backspaced()),
{
    proof {
        reveal(dropbox_code_edited);
    }
    let mut t = a.dropbox_setup.pasted_code;
    t.backspace();
    App { dropbox_setup: DropboxSetupState { pasted_code: t, ..a.dropbox_setup }, ..a }
}

fn dropbox_type(a: App, c: char) -> (b: App)
    ensures
        dropbox_code_edited(a, b, a.dropbox_setup.pasted_code@.typed(c)),
{
    proof {
        reveal(dropbox_code_edited);
    }
    let mut t = a.dropbox_setup.pasted_code;
    t.push_char(c);
    App { dropbox_setup: DropboxSetupState { pasted_code: t, ..a.dropbox_setup }, ..a }
}

fn dropbox_request_exchange(a: App) -> (b: App)
    ensures
        dropbox_exchange_requested(a, b),
{
    proof {
        reveal(dropbox_exchange_requested);
    }
    App {
        dropbox_setup: DropboxSetupState { stage: DropboxSetupStage::Exchanging, ..a.dropbox_setup },
        dropbox_request_exchange: true,
        ..a
    }
}

fn dropbox_key_action(a: &App, key: KeyEvent) -> (r: Option<ExternalAction>)
    ensures
        crate::keys::opt_action_view(r) == dropbox_action(*a, key),
{
    let failed = match a.dropbox_setup.stage {
        DropboxSetupStage::Failed(_) => true,
        _ => false,
    };
    let awaiting = match a.dropbox_setup.stage {
        DropboxSetupStage::AwaitingPaste => true,
        _ => false,
    };
    let retry = key.code == KeyCode::Char('r') || key.code == KeyCode::Char('R');
    let url = a.dropbox_setup.qr_url();
    if a.dropbox_setup.show_url_modal || (failed && retry) || !awaiting {
        None
    } else if key.code == KeyCode::Char('c') && !url.is_empty() {
        Some(ExternalAction::CopyUrl { target: UrlTarget::Dropbox, url: from_str(url) })
    } else if key.code == KeyCode::Char('o') && !url.is_empty() {
        Some(ExternalAction::OpenUrl { target: UrlTarget::Dropbox, url: from_str(url) })
    } else if key.code == KeyCode::Char('v') && key.modifiers == KeyModifiers::Control {
        Some(ExternalAction::PasteCode)
    } else {
        None
    }
}

fn takes_code_char(a: &App, c: char) -> (r: bool)
    ensures
        r == dropbox_takes(*a, c),
{
    (char_is_ascii_alnum(c) || c == '-' || c == '_') && char_count(a.dropbox_setup.pasted_code.value())
        < MAX_PASTED_CODE_LEN
}

pub(crate) fn handle_setup_dropbox(a: App, key: KeyEvent) -> (r: (App, Option<ExternalAction>))
    ensures
        dropbox_step(a, r.0, key),
        crate::keys::opt_action_view(r.1) == dropbox_action(a, key),
{
    let action = dropbox_key_action(&a, key);
    let failed = match a.dropbox_setup.stage {
        DropboxSetupStage::Failed(_) => true,
        _ => false,
    };
    let editable = match a.dropbox_setup.stage {
        DropboxSetupStage::AwaitingPaste => true,
        _ => false,
    };
    let done = match a.dropbox_setup.stage {
        DropboxSetupStage::Done => true,
        _ => false,
    };
    let takes = match key.code {
        KeyCode::Char(c) => takes_code_char(&a, c),
        _ => false,
    };
    let b = if a.dropbox_setup.show_url_modal {
        if key.code == KeyCode::Esc {
            dropbox_close_modal(a)
        } else {
            a
        }
    } else if failed && (key.code == KeyCode::Char('r') || key.code == KeyCode::Char('R')) {
        dropbox_restart(a)
    } else if key.code == KeyCode::Esc {
        dropbox_abandon(a)
    } else if editable && key.code == KeyCode::Char('q') {
        dropbox_toggle_qr(a)
    } else if editable && key.code == KeyCode::Char('i') {
        dropbox_toggle_inline(a)
    } else if editable && (key.code == KeyCode::Char('c') || key.code == KeyCode::Char('o')) {
        a
    } else if editable && key.code == KeyCode::Char('u') {
        if !a.dropbox_setup.authorize_url.as_str().is_empty() {
            dropbox_open_modal(a)
        } else {
            a
        }
    } else if editable && key.code == KeyCode::Char('v') && key.modifiers == KeyModifiers::Control {
        a
    } else if editable && key.code == KeyCode::Backspace {
        dropbox_backspace(a)
    } else if editable && takes {
        match key.code {
            KeyCode::Char(c) => dropbox_type(a, c),
            _ => a,
        }
    } else if key.code == KeyCode::Enter {
        if editable && a.dropbox_setup.pasted_code_appears_valid() {
            dropbox_request_exchange(a)
        } else if done {
            go_to(a, Screen::Collision)
        } else {
            a
        }
    } else {
        a
    };
    (b, action)
}

} // verus!
