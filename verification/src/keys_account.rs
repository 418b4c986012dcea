//! Keys on the passphrase and Done screens and in the account
//! sub-flow (e-mail and password, two-factor code, alias picker).

use vstd::prelude::*;
use crate::alias_gen::{alias_from_seed, suggest_alias_from};
use crate::app::{
    App, exit_push_flow_to, exited_push_flow, go_to, goes_to, quit, quits,
    return_to_welcome_after_done, returned_to_welcome,
};
use crate::input::{TextInput, TextInputView, empty_input, empty_masked_input};
use crate::keys::{KeyCode, KeyContext, KeyEvent};
use crate::screens::Screen;
use crate::text::{from_str, str_eq};
use crate::wizard::{
    AccountFocus, PassphraseFocus, PassphraseStage, PushFlowMode, PushFlowState, PushFlowView,
    PushStage, PushStageView, fresh_push_flow, strings_view,
};

verus! {

/// The passphrase step's stage becomes `st`.
#[verifier::opaque]
pub open spec fn passphrase_stage_set(a: App, b: App, st: PassphraseStage) -> bool {
    b == (App { passphrase_stage: st, ..a })
}

/// The container is to be encrypted and written.
#[verifier::opaque]
pub open spec fn save_requested(a: App, b: App) -> bool {
    b == (App { passphrase_stage: PassphraseStage::Encrypting, save_request: true, ..a })
}

/// After saving, `p` opens the account form to push the container.
#[verifier::opaque]
pub open spec fn push_offered(a: App, b: App) -> bool {
    &&& b.push_flow@ == fresh_push_flow()
    &&& b.account_email_input@ == empty_input()
    &&& b.account_password_input@ == empty_masked_input()
    &&& b.totp_code_input@ == empty_input()
    &&& b.push_alias_input@ == empty_input()
    &&& b == (App {
        push_flow: b.push_flow,
        account_focus: AccountFocus::Email,
        account_email_input: b.account_email_input,
        account_password_input: b.account_password_input,
        account_validation_error: None,
        totp_code_input: b.totp_code_input,
        push_alias_input: b.push_alias_input,
        push_back: None,
        screen: Screen::Account,
        ..a
    })
}

/// The focus on the passphrase screen becomes `f`.
#[verifier::opaque]
pub open spec fn passphrase_focused(a: App, b: App, f: PassphraseFocus) -> bool {
    b == (App { passphrase_focus: f, ..a })
}

/// The passphrase fields become `p` and `c`.
#[verifier::opaque]
pub open spec fn passphrase_fields_set(a: App, b: App, p: TextInputView, c: TextInputView) -> bool {
    &&& b.passphrase_input@ == p
    &&& b.confirm_input@ == c
    &&& b == (App { passphrase_input: b.passphrase_input, confirm_input: b.confirm_input, ..a })
}

/// `Enter` on the passphrase fields: nothing while the passphrase is
/// empty or the two fields differ; a warning when it is weak; else the
/// save is requested.
pub open spec fn save_attempted(a: App, b: App, weak: bool) -> bool {
    let p = a.passphrase_input@.value;
    if p.len() == 0 || p != a.confirm_input@.value {
        b == a
    } else if weak {
        passphrase_stage_set(a, b, PassphraseStage::WeakWarning)
    } else {
        save_requested(a, b)
    }
}

/// A key on the passphrase screen.
pub open spec fn passphrase_step(a: App, b: App, key: KeyEvent, ctx: KeyContext) -> bool {
    match a.passphrase_stage {
        PassphraseStage::WeakWarning => match key.code {
            KeyCode::Char('y') | KeyCode::Char('Y') => save_requested(a, b),
            KeyCode::Char('n') | KeyCode::Char('N') | KeyCode::Esc => passphrase_stage_set(
                a,
                b,
                PassphraseStage::Editing,
            ),
            _ => b == a,
        },
        PassphraseStage::Encrypting => b == a,
        PassphraseStage::Saved(_) => match key.code {
            KeyCode::Char('p') | KeyCode::Char('P') => push_offered(a, b),
            KeyCode::Enter => goes_to(a, b, Screen::Done),
            _ => b == a,
        },
        PassphraseStage::Failed(_) => if key.code == KeyCode::Esc || key.code == KeyCode::Enter {
            passphrase_stage_set(a, b, PassphraseStage::Editing)
        } else {
            b == a
        },
        PassphraseStage::Editing => {
            let p = a.passphrase_input@;
            let c = a.confirm_input@;
            let on_pass = a.passphrase_focus == PassphraseFocus::Passphrase;
            match key.code {
                KeyCode::Esc => goes_to(a, b, Screen::TestUpload),
                KeyCode::Tab | KeyCode::BackTab => passphrase_focused(
                    a,
                    b,
                    a.passphrase_focus.next_spec(),
                ),
                KeyCode::Enter => save_attempted(a, b, ctx.passphrase_weak),
                KeyCode::Backspace => if on_pass {
                    passphrase_fields_set(a, b, p.backspaced(), c)
                } else {
                    passphrase_fields_set(a, b, p, c.backspaced())
                },
                KeyCode::Char(ch) => if on_pass {
                    passphrase_fields_set(a, b, p.typed(ch), c)
                } else {
                    passphrase_fields_set(a, b, p, c.typed(ch))
                },
                _ => b == a,
            }
        },
    }
}

fn set_passphrase_stage(a: App, st: PassphraseStage) -> (b: App)
    ensures
        passphrase_stage_set(a, b, st),
{
    proof {
        reveal(passphrase_stage_set);
    }
    App { passphrase_stage: st, ..a }
}

fn request_save(a: App) -> (b: App)
    ensures
        save_requested(a, b),
{
    proof {
        reveal(save_requested);
    }
    App { passphrase_stage: PassphraseStage::Encrypting, save_request: true, ..a }
}

fn offer_push(a: App) -> (b: App)
    ensures
        push_offered(a, b),
{
    proof {
        reveal(push_offered);
    }
    App {
        push_flow: PushFlowState::default(),
        account_focus: AccountFocus::Email,
        account_email_input: TextInput::new(),
        account_password_input: TextInput::masked(),
        account_validation_error: None,
        totp_code_input: TextInput::new(),
        push_alias_input: TextInput::new(),
        push_back: None,
        screen: Screen::Account,
        ..a
    }
}

fn focus_passphrase(a: App, f: PassphraseFocus) -> (b: App)
    ensures
        passphrase_focused(a, b, f),
{
    proof {
        reveal(passphrase_focused);
    }
    App { passphrase_focus: f, ..a }
}

fn set_passphrase_fields(a: App, p: TextInput, c: TextInput) -> (b: App)
    ensures
        passphrase_fields_set(a, b, p@, c@),
{
    proof {
        reveal(passphrase_fields_set);
    }
    App { passphrase_input: p, confirm_input: c, ..a }
}

fn try_save_profile(a: App, weak: bool) -> (b: App)
    ensures
        save_attempted(a, b, weak),
{
    if a.passphrase_input.is_empty() {
        return a;
    }
    if !str_eq(a.passphrase_input.value(), a.confirm_input.value()) {
        return a;
    }
    if weak {
        set_passphrase_stage(a, PassphraseStage::WeakWarning)
    } else {
        request_save(a)
    }
}

pub(crate) fn handle_passphrase(a: App, key: KeyEvent, ctx: KeyContext) -> (b: App)
    ensures
        passphrase_step(a, b, key, ctx),
{
    match a.passphrase_stage {
        PassphraseStage::WeakWarning => match key.code {
            KeyCode::Char('y') | KeyCode::Char('Y') => request_save(a),
            KeyCode::Char('n') | KeyCode::Char('N') | KeyCode::Esc => set_passphrase_stage(
                a,
                PassphraseStage::Editing,
            ),
            _ => a,
        },
        PassphraseStage::Encrypting => a,
        PassphraseStage::Saved(_) => match key.code {
            KeyCode::Char('p') | KeyCode::Char('P') => offer_push(a),
            KeyCode::Enter => go_to(a, Screen::Done),
            _ => a,
        },
        PassphraseStage::Failed(_) => if key.code == KeyCode::Esc || key.code == KeyCode::Enter {
            set_passphrase_stage(a, PassphraseStage::Editing)
        } else {
            a
        },
        PassphraseStage::Editing => {
            let mut p = a.passphrase_input.clone();
            let mut c = a.confirm_input.clone();
            let on_pass = a.passphrase_focus == PassphraseFocus::Passphrase;
            match key.code {
                KeyCode::Esc => go_to(a, Screen::TestUpload),
                KeyCode::Tab | KeyCode::BackTab => {
                    let f = a.passphrase_focus.next();
                    focus_passphrase(a, f)
                },
                KeyCode::Enter => try_save_profile(a, ctx.passphrase_weak),
                KeyCode::Backspace => {
                    if on_pass {
                        p.backspace();
                    } else {
                        c.backspace();
                    }
                    set_passphrase_fields(a, p, c)
                },
                KeyCode::Char(ch) => {
                    if on_pass {
                        p.push_char(ch);
                    } else {
                        c.push_char(ch);
                    }
                    set_passphrase_fields(a, p, c)
                },
                _ => a,
            }
        },
    }
}

/// A key on the Done screen: `q` quits, `Esc`, `Enter` and `b` go back
/// to the welcome menu.
pub open spec fn done_step(a: App, b: App, key: KeyEvent) -> bool {
    match key.code {
        KeyCode::Char('q') => quits(a, b),
        KeyCode::Esc | KeyCode::Enter | KeyCode::Char('b') | KeyCode::Char('B') => returned_to_welcome(
            a,
            b,
        ),
        _ => b == a,
    }
}

pub(crate) fn handle_done(a: App, key: KeyEvent) -> (b: App)
    ensures
        done_step(a, b, key),
{
    match key.code {
        KeyCode::Char('q') => quit(a),
        KeyCode::Esc | KeyCode::Enter | KeyCode::Char('b') | KeyCode::Char('B') => {
            return_to_welcome_after_done(a)
        },
        _ => a,
    }
}

/// Leaving the account sub-flow for the screen it was entered from,
/// which is then forgotten.
pub open spec fn left_push_flow_back(a: App, b: App) -> bool {
    &&& a.push_back is Some
    &&& exited_push_flow(App { push_back: None, ..a }, b, a.push_back.unwrap())
}

/// The account form's focus becomes `f`.
#[verifier::opaque]
pub open spec fn account_focused(a: App, b: App, f: AccountFocus) -> bool {
    b == (App { account_focus: f, ..a })
}

/// The account form is refused before any request, for `why`.
#[verifier::opaque]
pub open spec fn account_refused(a: App, b: App, why: &'static str) -> bool {
    b == (App { account_validation_error: Some(why), ..a })
}

/// The login is requested.
#[verifier::opaque]
pub open spec fn login_requested(a: App, b: App) -> bool {
    b == (App {
        account_validation_error: None,
        push_flow: PushFlowState { stage: PushStage::AccountSending, ..a.push_flow },
        push_request_login: true,
        ..a
    })
}

/// The account fields become `e` and `p`; an earlier refusal is
/// cleared.
#[verifier::opaque]
pub open spec fn account_fields_set(a: App, b: App, e: TextInputView, p: TextInputView) -> bool {
    &&& b.account_email_input@ == e
    &&& b.account_password_input@ == p
    &&& b == (App {
        account_email_input: b.account_email_input,
        account_password_input: b.account_password_input,
        account_validation_error: None,
        ..a
    })
}

/// A key on the account form. Nothing happens while the login is
/// sent. `Esc` leaves for the screen the sub-flow was entered from, or
/// for the welcome menu after a failure, and does nothing otherwise.
/// `Enter` refuses an implausible e-mail, then an empty password, and
/// otherwise requests the login.
pub open spec fn account_step(a: App, b: App, key: KeyEvent, ctx: KeyContext) -> bool {
    if a.push_flow.stage is AccountSending {
        b == a
    } else {
        let e = a.account_email_input@;
        let p = a.account_password_input@;
        let on_email = a.account_focus == AccountFocus::Email;
        match key.code {
            KeyCode::Esc => if a.push_back is Some {
                left_push_flow_back(a, b)
            } else if a.push_flow.stage is Failed {
                exited_push_flow(a, b, Screen::Welcome)
            } else {
                b == a
            },
            KeyCode::Tab | KeyCode::BackTab => account_focused(a, b, a.account_focus.next_spec()),
            KeyCode::Enter => if !ctx.email_plausible {
                account_refused(a, b, "enter a valid email address")
            } else if p.value.len() == 0 {
                account_refused(a, b, "enter your password")
            } else {
                login_requested(a, b)
            },
            KeyCode::Backspace => if on_email {
                account_fields_set(a, b, e.backspaced(), p)
            } else {
                account_fields_set(a, b, e, p.backspaced())
            },
            KeyCode::Char(c) => if on_email {
                account_fields_set(a, b, e.typed(c), p)
            } else {
                account_fields_set(a, b, e, p.typed(c))
            },
            _ => b == a,
        }
    }
}

fn leave_push_flow_back(a: App) -> (b: App)
    requires
        a.push_back is Some,
    ensures
        left_push_flow_back(a, b),
{
    proof {
        reveal(exited_push_flow);
    }
    let back = a.push_back.unwrap();
    App {
        push_flow: PushFlowState::default(),
        account_email_input: TextInput::new(),
        account_password_input: TextInput::masked(),
        account_validation_error: None,
        totp_code_input: TextInput::new(),
        push_alias_input: TextInput::new(),
        push_request_login: false,
        push_request_totp: false,
        push_request_list: false,
        push_request_send: false,
        signin_request_download: false,
        rewrite_blob_for_alias_request: false,
        push_back: None,
        screen: back,
        ..a
    }
}

fn focus_account(a: App, f: AccountFocus) -> (b: App)
    ensures
        account_focused(a, b, f),
{
    proof {
        reveal(account_focused);
    }
    App { account_focus: f, ..a }
}

fn refuse_account(a: App, why: &'static str) -> (b: App)
    ensures
        account_refused(a, b, why),
{
    proof {
        reveal(account_refused);
    }
    App { account_validation_error: Some(why), ..a }
}

fn request_login(a: App) -> (b: App)
    ensures
        login_requested(a, b),
{
    proof {
        reveal(login_requested);
    }
    App {
        account_validation_error: None,
        push_flow: PushFlowState { stage: PushStage::AccountSending, ..a.push_flow },
        push_request_login: true,
        ..a
    }
}

fn set_account_fields(a: App, e: TextInput, p: TextInput) -> (b: App)
    ensures
        account_fields_set(a, b, e@, p@),
{
    proof {
        reveal(account_fields_set);
    }
    App { account_email_input: e, account_password_input: p, account_validation_error: None, ..a }
}

pub(crate) fn handle_account(a: App, key: KeyEvent, ctx: KeyContext) -> (b: App)
    ensures
        account_step(a, b, key, ctx),
{
    let sending = match a.push_flow.stage {
        PushStage::AccountSending => true,
        _ => false,
    };
    if sending {
        return a;
    }
    let failed = match a.push_flow.stage {
        PushStage::Failed(_) => true,
        _ => false,
    };
    let mut e = a.account_email_input.clone();
    let mut p = a.account_password_input.clone();
    let on_email = a.account_focus == AccountFocus::Email;
    match key.code {
        KeyCode::Esc => {
            if a.push_back.is_some() {
                leave_push_flow_back(a)
            } else if failed {
                exit_push_flow_to(a, Screen::Welcome)
            } else {
                a
            }
        },
        KeyCode::Tab | KeyCode::BackTab => {
            let f = a.account_focus.next();
            focus_account(a, f)
        },
        KeyCode::Enter => {
            if !ctx.email_plausible {
                refuse_account(a, "enter a valid email address")
            } else if a.account_password_input.is_empty() {
                refuse_account(a, "enter your password")
            } else {
                request_login(a)
            }
        },
        KeyCode::Backspace => {
            if on_email {
                e.backspace();
            } else {
                p.backspace();
            }
            set_account_fields(a, e, p)
        },
        KeyCode::Char(c) => {
            if on_email {
                e.push_char(c);
            } else {
                p.push_char(c);
            }
            set_account_fields(a, e, p)
        },
        _ => a,
    }
}

/// Back from the two-factor form to the account form.
#[verifier::opaque]
pub open spec fn totp_backed_out(a: App, b: App) -> bool {
    &&& b.totp_code_input@ == empty_input()
    &&& b == (App {
        screen: Screen::Account,
        push_flow: PushFlowState { stage: PushStage::AccountForm, ..a.push_flow },
        totp_code_input: b.totp_code_input,
        ..a
    })
}

/// The two-factor field becomes `t`.
#[verifier::opaque]
pub open spec fn totp_edited(a: App, b: App, t: TextInputView) -> bool {
    &&& b.totp_code_input@ == t
    &&& b == (App { totp_code_input: b.totp_code_input, ..a })
}

/// The two-factor answer is requested.
#[verifier::opaque]
pub open spec fn totp_requested(a: App, b: App) -> bool {
    b == (App {
        push_flow: PushFlowState { stage: PushStage::TotpSending, ..a.push_flow },
        push_request_totp: true,
        ..a
    })
}

/// A key on the two-factor form. Nothing happens while the code is
/// sent; `Enter` sends a non-empty code when a challenge is pending.
pub open spec fn totp_step(a: App, b: App, key: KeyEvent) -> bool {
    if a.push_flow.stage is TotpSending {
        b == a
    } else {
        let t = a.totp_code_input@;
        match key.code {
            KeyCode::Esc => totp_backed_out(a, b),
            KeyCode::Backspace => totp_edited(a, b, t.backspaced()),
            KeyCode::Enter => if t.value.len() > 0 && a.push_flow.login_challenge is Some {
                totp_requested(a, b)
            } else {
                b == a
            },
            KeyCode::Char(c) => totp_edited(a, b, t.typed(c)),
            _ => b == a,
        }
    }
}

fn back_out_of_totp(a: App) -> (b: App)
    ensures
        totp_backed_out(a, b),
{
    proof {
        reveal(totp_backed_out);
    }
    App {
        screen: Screen::Account,
        push_flow: PushFlowState { stage: PushStage::AccountForm, ..a.push_flow },
        totp_code_input: TextInput::new(),
        ..a
    }
}

fn set_totp(a: App, t: TextInput) -> (b: App)
    ensures
        totp_edited(a, b, t@),
{
    proof {
        reveal(totp_edited);
    }
    App { totp_code_input: t, ..a }
}

fn request_totp(a: App) -> (b: App)
    ensures
        totp_requested(a, b),
{
    proof {
        reveal(totp_requested);
    }
    App {
        push_flow: PushFlowState { stage: PushStage::TotpSending, ..a.push_flow },
        push_request_totp: true,
        ..a
    }
}

pub(crate) fn handle_login_totp(a: App, key: KeyEvent) -> (b: App)
    ensures
        totp_step(a, b, key),
{
    let sending = match a.push_flow.stage {
        PushStage::TotpSending => true,
        _ => false,
    };
    if sending {
        return a;
    }
    let mut t = a.totp_code_input.clone();
    match key.code {
        KeyCode::Esc => back_out_of_totp(a),
        KeyCode::Backspace => {
            t.backspace();
            set_totp(a, t)
        },
        KeyCode::Enter => {
            if !a.totp_code_input.is_empty() && a.push_flow.login_challenge.is_some() {
                request_totp(a)
            } else {
                a
            }
        },
        KeyCode::Char(c) => {
            t.push_char(c);
            set_totp(a, t)
        },
        _ => a,
    }
}

/// The upload or download has finished: the screen the sub-flow was
/// entered from (else Done), with the sub-flow state cleared.
#[verifier::opaque]
pub open spec fn push_finished(a: App, b: App) -> bool {
    &&& b.push_flow@ == fresh_push_flow()
    &&& b == (App {
        screen: match a.push_back {
            Some(s) => s,
            None => Screen::Done,
        },
        push_back: None,
        push_flow: b.push_flow,
        ..a
    })
}

/// After a failure, the alias list is requested again.
#[verifier::opaque]
pub open spec fn alias_list_retried(a: App, b: App) -> bool {
    b == (App {
        push_flow: PushFlowState { stage: PushStage::PushFetching, ..a.push_flow },
        push_request_list: true,
        ..a
    })
}

/// After a failure, the upload (or the download) is requested again.
#[verifier::opaque]
pub open spec fn transfer_retried(a: App, b: App) -> bool {
    match a.push_flow.mode {
        PushFlowMode::Push => b == (App {
            push_flow: PushFlowState { stage: PushStage::PushSending, ..a.push_flow },
            push_request_send: true,
            ..a
        }),
        PushFlowMode::SignIn => b == (App {
            push_flow: PushFlowState { stage: PushStage::PushSending, ..a.push_flow },
            signin_request_download: true,
            ..a
        }),
    }
}

/// `g`: the new-alias field gets the suggestion `seed` picks and the
/// picker lets go of the list.
#[verifier::opaque]
pub open spec fn alias_suggested(a: App, b: App, seed: u64) -> bool {
    &&& b.push_alias_input@ == a.push_alias_input@.with_value(alias_from_seed(seed))
    &&& b == (App {
        push_alias_input: b.push_alias_input,
        push_flow: PushFlowState { picker_index: None, ..a.push_flow },
        ..a
    })
}

/// The highlighted alias becomes `i` (`None`: the new-alias field).
#[verifier::opaque]
pub open spec fn picker_moved(a: App, b: App, i: Option<usize>) -> bool {
    b == (App { push_flow: PushFlowState { picker_index: i, ..a.push_flow }, ..a })
}

/// The new-alias field becomes `t`.
#[verifier::opaque]
pub open spec fn new_alias_edited(a: App, b: App, t: TextInputView) -> bool {
    &&& b.push_alias_input@ == t
    &&& b == (App { push_alias_input: b.push_alias_input, ..a })
}

pub open spec fn picker_up(f: PushFlowState) -> Option<usize> {
    match f.picker_index {
        Some(i) => if i > 0 {
            Some((i - 1) as usize)
        } else {
            Some(i)
        },
        None => if f.remote_aliases@.len() > 0 {
            Some((f.remote_aliases@.len() - 1) as usize)
        } else {
            None
        },
    }
}

pub open spec fn picker_down(f: PushFlowState) -> Option<usize> {
    match f.picker_index {
        Some(i) => if i + 1 < f.remote_aliases@.len() {
            Some((i + 1) as usize)
        } else {
            None
        },
        None => if f.remote_aliases@.len() > 0 {
            Some(0usize)
        } else {
            None
        },
    }
}

/// The alias `Enter` acts on: the highlighted one, else the typed one.
pub open spec fn chosen_alias(a: App) -> Seq<char> {
    match a.push_flow.picker_index {
        Some(i) => if i < a.push_flow.remote_aliases@.len() {
            a.push_flow.remote_aliases@[i as int]@
        } else {
            a.push_alias_input@.value
        },
        None => a.push_alias_input@.value,
    }
}

/// The upload to `alias` is requested; `rewrite` first re-encrypts the
/// local container under that alias.
#[verifier::opaque]
pub open spec fn upload_requested(a: App, b: App, alias: Seq<char>, rewrite: bool) -> bool {
    &&& b.push_alias_input@ == a.push_alias_input@.with_value(alias)
    &&& b == (App {
        push_alias_input: b.push_alias_input,
        push_flow: PushFlowState { stage: PushStage::PushSending, ..a.push_flow },
        rewrite_blob_for_alias_request: if rewrite {
            true
        } else {
            a.rewrite_blob_for_alias_request
        },
        push_request_send: if rewrite {
            a.push_request_send
        } else {
            true
        },
        ..a
    })
}

/// The download of `alias` is requested.
#[verifier::opaque]
pub open spec fn download_requested(a: App, b: App, alias: Seq<char>) -> bool {
    &&& b.push_alias_input@ == a.push_alias_input@.with_value(alias)
    &&& b == (App {
        push_alias_input: b.push_alias_input,
        push_flow: PushFlowState { stage: PushStage::PushSending, ..a.push_flow },
        signin_request_download: true,
        ..a
    })
}

/// Signing in with an alias the server does not have is refused.
#[verifier::opaque]
pub open spec fn download_refused(a: App, b: App, alias: Seq<char>) -> bool {
    &&& b.push_alias_input@ == a.push_alias_input@.with_value(alias)
    &&& b.push_flow@ == (PushFlowView {
        stage: PushStageView::Failed("alias not on the server — pick one from the list"@),
        ..a.push_flow@
    })
    &&& b == (App { push_alias_input: b.push_alias_input, push_flow: b.push_flow, ..a })
}

/// `Enter` on the alias picker with a non-empty alias: an upload, which
/// re-encrypts the local container first when the wizard saved it
/// under another name and its passphrase is still at hand; or a
/// download, of an alias the server listed only.
pub open spec fn alias_chosen(a: App, b: App, alias: Seq<char>) -> bool {
    match a.push_flow.mode {
        PushFlowMode::Push => upload_requested(
            a,
            b,
            alias,
            a.push_back is None && alias != a.state.username@ && a.passphrase_input@.value.len()
                > 0,
        ),
        PushFlowMode::SignIn => if strings_view(a.push_flow.remote_aliases@).contains(alias) {
            download_requested(a, b, alias)
        } else {
            download_refused(a, b, alias)
        },
    }
}

/// A key on the alias picker. Nothing happens while a request is in
/// flight. When done, `Enter` or `Esc` leave. After a failure `Esc`
/// leaves (for the welcome menu when the sub-flow has no way back) and
/// `r` or `Enter` retry what failed. Otherwise `g` suggests an alias,
/// arrows walk the list and the new-alias field, `Enter` acts on the
/// chosen alias, and typing edits the new-alias field when it is the
/// one highlighted.
pub open spec fn push_profile_step(a: App, b: App, key: KeyEvent, ctx: KeyContext) -> bool {
    let f = a.push_flow;
    if f.stage is PushSending || f.stage is PushFetching {
        b == a
    } else if f.stage is Done {
        if key.code == KeyCode::Enter || key.code == KeyCode::Esc {
            push_finished(a, b)
        } else {
            b == a
        }
    } else if f.stage is Failed {
        match key.code {
            KeyCode::Esc => exited_push_flow(
                a,
                b,
                match a.push_back {
                    Some(s) => s,
                    None => Screen::Welcome,
                },
            ),
            KeyCode::Char('r') | KeyCode::Char('R') | KeyCode::Enter => if f.remote_aliases@.len()
                == 0 {
                alias_list_retried(a, b)
            } else {
                transfer_retried(a, b)
            },
            _ => b == a,
        }
    } else {
        let t = a.push_alias_input@;
        match key.code {
            KeyCode::Char('g') => alias_suggested(a, b, ctx.seed),
            KeyCode::Esc => if a.push_back is Some {
                left_push_flow_back(a, b)
            } else {
                b == a
            },
            KeyCode::Up => picker_moved(a, b, picker_up(f)),
            KeyCode::Down => picker_moved(a, b, picker_down(f)),
            KeyCode::Enter => if chosen_alias(a).len() == 0 {
                b == a
            } else {
                alias_chosen(a, b, chosen_alias(a))
            },
            KeyCode::Backspace => if f.picker_index is None {
                new_alias_edited(a, b, t.backspaced())
            } else {
                b == a
            },
            KeyCode::Char(c) => if f.picker_index is None {
                new_alias_edited(a, b, t.typed(c))
            } else {
                b == a
            },
            _ => b == a,
        }
    }
}

fn finish_push(a: App) -> (b: App)
    ensures
        push_finished(a, b),
{
    proof {
        reveal(push_finished);
    }
    let target = match a.push_back {
        Some(s) => s,
        None => Screen::Done,
    };
    App { screen: target, push_back: None, push_flow: PushFlowState::default(), ..a }
}

fn retry_alias_list(a: App) -> (b: App)
    ensures
        alias_list_retried(a, b),
{
    proof {
        reveal(alias_list_retried);
    }
    App {
        push_flow: PushFlowState { stage: PushStage::PushFetching, ..a.push_flow },
        push_request_list: true,
        ..a
    }
}

fn retry_upload(a: App) -> (b: App)
    requires
        a.push_flow.mode == PushFlowMode::Push,
    ensures
        transfer_retried(a, b),
{
    proof {
        reveal(transfer_retried);
    }
    App {
        push_flow: PushFlowState { stage: PushStage::PushSending, ..a.push_flow },
        push_request_send: true,
        ..a
    }
}

fn retry_download(a: App) -> (b: App)
    requires
        a.push_flow.mode == PushFlowMode::SignIn,
    ensures
        transfer_retried(a, b),
{
    proof {
        reveal(transfer_retried);
    }
    App {
        push_flow: PushFlowState { stage: PushStage::PushSending, ..a.push_flow },
        signin_request_download: true,
        ..a
    }
}

fn suggest_new_alias(a: App, seed: u64) -> (b: App)
    ensures
        alias_suggested(a, b, seed),
{
    proof {
        reveal(alias_suggested);
    }
    let suggestion = suggest_alias_from(seed);
    let mut t = a.push_alias_input;
    t.set_value(suggestion.as_str());
    App { push_alias_input: t, push_flow: PushFlowState { picker_index: None, ..a.push_flow }, ..a }
}

fn move_picker(a: App, i: Option<usize>) -> (b: App)
    ensures
        picker_moved(a, b, i),
{
    proof {
        reveal(picker_moved);
    }
    App { push_flow: PushFlowState { picker_index: i, ..a.push_flow }, ..a }
}

fn set_new_alias(a: App, t: TextInput) -> (b: App)
    ensures
        new_alias_edited(a, b, t@),
{
    proof {
        reveal(new_alias_edited);
    }
    App { push_alias_input: t, ..a }
}

fn request_upload(a: App, alias: &str, rewrite: bool) -> (b: App)
    ensures
        upload_requested(a, b, alias@, rewrite),
{
    proof {
        reveal(upload_requested);
    }
    let mut t = a.push_alias_input;
    t.set_value(alias);
    let rw = if rewrite {
        true
    } else {
        a.rewrite_blob_for_alias_request
    };
    let send = if rewrite {
        a.push_request_send
    } else {
        true
    };
    App {
        push_alias_input: t,
        push_flow: PushFlowState { stage: PushStage::PushSending, ..a.push_flow },
        rewrite_blob_for_alias_request: rw,
        push_request_send: send,
        ..a
    }
}

fn request_download(a: App, alias: &str) -> (b: App)
    ensures
        download_requested(a, b, alias@),
{
    proof {
        reveal(download_requested);
    }
    let mut t = a.push_alias_input;
    t.set_value(alias);
    App {
        push_alias_input: t,
        push_flow: PushFlowState { stage: PushStage::PushSending, ..a.push_flow },
        signin_request_download: true,
        ..a
    }
}

fn refuse_download(a: App, alias: &str) -> (b: App)
    ensures
        download_refused(a, b, alias@),
{
    proof {
        reveal(download_refused);
    }
    let mut t = a.push_alias_input;
    t.set_value(alias);
    let why = from_str("alias not on the server — pick one from the list");
    App { push_alias_input: t, push_flow: PushFlowState { stage: PushStage::Failed(why), ..a.push_flow }, ..a }
}

/// `true` when `v` holds `s`.
pub fn strings_contain(v: &Vec<String>, s: &str) -> (r: bool)
    ensures
        r == strings_view(v@).contains(s@),
{
    let mut i: usize = 0;
    while i < v.len()
        invariant
            i <= v.len(),
            forall|j: int| 0 <= j < i ==> v@[j]@ != s@,
        decreases v.len() - i,
    {
        if str_eq(v[i].as_str(), s) {
            assert(strings_view(v@)[i as int] == s@);
            return true;
        }
        i = i + 1;
    }
    assert forall|j: int| 0 <= j < strings_view(v@).len() implies strings_view(v@)[j] != s@ by {}
    false
}

fn picker_up_exec(f: &PushFlowState) -> (r: Option<usize>)
    ensures
        r == picker_up(*f),
{
    match f.picker_index {
        Some(i) => if i > 0 {
            Some(i - 1)
        } else {
            Some(i)
        },
        None => if f.remote_aliases.len() > 0 {
            Some(f.remote_aliases.len() - 1)
        } else {
            None
        },
    }
}

fn picker_down_exec(f: &PushFlowState) -> (r: Option<usize>)
    ensures
        r == picker_down(*f),
{
    match f.picker_index {
        Some(i) => if i < f.remote_aliases.len() && i + 1 < f.remote_aliases.len() {
            Some(i + 1)
        } else {
            None
        },
        None => if f.remote_aliases.len() > 0 {
            Some(0)
        } else {
            None
        },
    }
}

fn chosen_alias_exec(a: &App) -> (r: String)
    ensures
        r@ == chosen_alias(*a),
{
    match a.push_flow.picker_index {
        Some(i) => if i < a.push_flow.remote_aliases.len() {
            a.push_flow.remote_aliases[i].clone()
        } else {
            from_str(a.push_alias_input.value())
        },
        None => from_str(a.push_alias_input.value()),
    }
}

fn choose_alias(a: App, alias: String) -> (b: App)
    ensures
        alias_chosen(a, b, alias@),
{
    match a.push_flow.mode {
        PushFlowMode::Push => {
            let rewrite = a.push_back.is_none() && !str_eq(alias.as_str(), a.state.username.as_str())
                && !a.passphrase_input.is_empty();
            request_upload(a, alias.as_str(), rewrite)
        },
        PushFlowMode::SignIn => {
            if strings_contain(&a.push_flow.remote_aliases, alias.as_str()) {
                request_download(a, alias.as_str())
            } else {
                refuse_download(a, alias.as_str())
            }
        },
    }
}

pub(crate) fn handle_push_profile(a: App, key: KeyEvent, ctx: KeyContext) -> (b: App)
    ensures
        push_profile_step(a, b, key, ctx),
{
    let (in_flight, done, failed) = match a.push_flow.stage {
        PushStage::PushSending | PushStage::PushFetching => (true, false, false),
        PushStage::Done => (false, true, false),
        PushStage::Failed(_) => (false, false, true),
        _ => (false, false, false),
    };
    if in_flight {
        return a;
    }
    if done {
        return if key.code == KeyCode::Enter || key.code == KeyCode::Esc {
            finish_push(a)
        } else {
            a
        };
    }
    if failed {
        return match key.code {
            KeyCode::Esc => {
                let target = match a.push_back {
                    Some(s) => s,
                    None => Screen::Welcome,
                };
                exit_push_flow_to(a, target)
            },
            KeyCode::Char('r') | KeyCode::Char('R') | KeyCode::Enter => {
                if a.push_flow.remote_aliases.len() == 0 {
                    retry_alias_list(a)
                } else {
                    match a.push_flow.mode {
                        PushFlowMode::Push => retry_upload(a),
                        PushFlowMode::SignIn => retry_download(a),
                    }
                }
            },
            _ => a,
        };
    }
    let mut t = a.push_alias_input.clone();
    let typing = a.push_flow.picker_index.is_none();
    match key.code {
        KeyCode::Char('g') => suggest_new_alias(a, ctx.seed),
        KeyCode::Esc => {
            if a.push_back.is_some() {
                leave_push_flow_back(a)
            } else {
                a
            }
        },
        KeyCode::Up => {
            let i = picker_up_exec(&a.push_flow);
            move_picker(a, i)
        },
        KeyCode::Down => {
            let i = picker_down_exec(&a.push_flow);
            move_picker(a, i)
        },
        KeyCode::Enter => {
            let alias = chosen_alias_exec(&a);
            if alias.as_str().is_empty() {
                a
            } else {
                choose_alias(a, alias)
            }
        },
        KeyCode::Backspace => {
            if typing {
                t.backspace();
                set_new_alias(a, t)
            } else {
                a
            }
        },
        KeyCode::Char(c) => {
            if typing {
                t.push_char(c);
                set_new_alias(a, t)
            } else {
                a
            }
        },
        _ => a,
    }
}

} // verus!
