//! Keys on the screens that open an existing container: the
//! passphrase prompt, the connection picker, the manage screen and the
//! alias prompt for a new connection.

use vstd::prelude::*;
use crate::app::{
    App, enter_push_flow, entered_push_flow, hydrate_from_inner, hydrated,
    prepare_inner_alias_input, prepared_inner_alias, saved_path_after, start_add_inner_profile,
    started_add_inner,
};
use crate::input::{TextInput, TextInputView, empty_input, empty_masked_input};
use crate::keys::{KeyCode, KeyContext, KeyEvent};
use crate::profile::{PlainProfileView, position_of_alias};
use crate::screens::{InnerAliasState, Screen};
use crate::text::{char_is_control, from_str, is_control, trim, trim_spec};
use crate::wizard::{ManageStage, PushFlowMode, WizardMode, WizardState, WizardStateView, opt_str_view};

verus! {

/// Leaving the passphrase prompt for the welcome menu.
#[verifier::opaque]
pub open spec fn unlock_cancelled(a: App, b: App) -> bool {
    &&& b.manage_passphrase_input@ == empty_masked_input()
    &&& b == (App {
        manage_passphrase_input: b.manage_passphrase_input,
        manage_unlock_error: None,
        screen: Screen::Welcome,
        ..a
    })
}

/// The passphrase prompt becomes `t`.
#[verifier::opaque]
pub open spec fn unlock_field_set(a: App, b: App, t: TextInputView) -> bool {
    &&& b.manage_passphrase_input@ == t
    &&& b == (App { manage_passphrase_input: b.manage_passphrase_input, ..a })
}

/// Decryption of the container is requested.
#[verifier::opaque]
pub open spec fn unlock_requested(a: App, b: App) -> bool {
    b == (App {
        manage_stage: ManageStage::Unlocking,
        manage_unlock_error: None,
        unlock_request: true,
        ..a
    })
}

/// A key on the passphrase prompt. Nothing happens while the container
/// is decrypted; `Enter` with a non-empty passphrase requests it.
pub open spec fn unlock_step(a: App, b: App, key: KeyEvent) -> bool {
    if a.manage_stage == ManageStage::Unlocking {
        b == a
    } else {
        let t = a.manage_passphrase_input@;
        match key.code {
            KeyCode::Esc => unlock_cancelled(a, b),
            KeyCode::Backspace => unlock_field_set(a, b, t.backspaced()),
            KeyCode::Enter => if t.value.len() > 0 {
                unlock_requested(a, b)
            } else {
                b == a
            },
            KeyCode::Char(c) => unlock_field_set(a, b, t.typed(c)),
            _ => b == a,
        }
    }
}

fn cancel_unlock(a: App) -> (b: App)
    ensures
        unlock_cancelled(a, b),
{
    proof {
        reveal(unlock_cancelled);
    }
    App {
        manage_passphrase_input: TextInput::masked(),
        manage_unlock_error: None,
        screen: Screen::Welcome,
        ..a
    }
}

fn set_unlock_field(a: App, t: TextInput) -> (b: App)
    ensures
        unlock_field_set(a, b, t@),
{
    proof {
        reveal(unlock_field_set);
    }
    App { manage_passphrase_input: t, ..a }
}

fn request_unlock(a: App) -> (b: App)
    ensures
        unlock_requested(a, b),
{
    proof {
        reveal(unlock_requested);
    }
    App {
        manage_stage: ManageStage::Unlocking,
        manage_unlock_error: None,
        unlock_request: true,
        ..a
    }
}

pub(crate) fn handle_profile_unlock(a: App, key: KeyEvent) -> (b: App)
    ensures
        unlock_step(a, b, key),
{
    if a.manage_stage == ManageStage::Unlocking {
        return a;
    }
    let mut t = a.manage_passphrase_input.clone();
    match key.code {
        KeyCode::Esc => cancel_unlock(a),
        KeyCode::Backspace => {
            t.backspace();
            set_unlock_field(a, t)
        },
        KeyCode::Enter => {
            if !a.manage_passphrase_input.is_empty() {
                request_unlock(a)
            } else {
                a
            }
        },
        KeyCode::Char(c) => {
            t.push_char(c);
            set_unlock_field(a, t)
        },
        _ => a,
    }
}

/// The manage flow's stage becomes `st`.
#[verifier::opaque]
pub open spec fn manage_stage_set(a: App, b: App, st: ManageStage) -> bool {
    b == (App { manage_stage: st, ..a })
}

/// The container files are to be deleted.
#[verifier::opaque]
pub open spec fn wipe_requested(a: App, b: App) -> bool {
    b == (App { manage_stage: ManageStage::Wiping, wipe_request: true, ..a })
}

/// The active connection is to be removed from the container.
#[verifier::opaque]
pub open spec fn delete_requested(a: App, b: App) -> bool {
    b == (App { manage_stage: ManageStage::DeletingInner, delete_inner_request: true, ..a })
}

/// The manage screen returns to `Viewing` with its message cleared.
#[verifier::opaque]
pub open spec fn manage_viewing(a: App, b: App) -> bool {
    b == (App { manage_stage: ManageStage::Viewing, manage_unlock_error: None, ..a })
}

/// Back to the welcome menu, the container staying unlocked in memory.
#[verifier::opaque]
pub open spec fn manage_left(a: App, b: App) -> bool {
    &&& b.manage_passphrase_input@ == empty_masked_input()
    &&& b == (App {
        manage_show_secret: false,
        manage_passphrase_input: b.manage_passphrase_input,
        manage_stage: ManageStage::Locked,
        screen: Screen::Welcome,
        ..a
    })
}

/// The secret is shown (or hidden again).
#[verifier::opaque]
pub open spec fn secret_toggled(a: App, b: App) -> bool {
    b == (App { manage_show_secret: !a.manage_show_secret, ..a })
}

/// The probe runs again, returning to the manage screen.
#[verifier::opaque]
pub open spec fn retest_started(a: App, b: App) -> bool {
    b == (App {
        test_upload_back: Some(Screen::ProfileManage),
        screen: Screen::TestUpload,
        ..a
    })
}

/// The manage screen shows `msg`.
#[verifier::opaque]
pub open spec fn manage_message(a: App, b: App, msg: Seq<char>) -> bool {
    &&& opt_str_view(b.manage_unlock_error) == Some(msg)
    &&& b == (App { manage_unlock_error: b.manage_unlock_error, ..a })
}

/// The container is unlocked with its key at hand.
pub open spec fn container_at_hand(a: App) -> bool {
    a.unlocked_kek is Some && a.unlocked_set is Some
}

/// A key on the manage screen. In the confirmations `y` goes ahead and
/// `n` or `Esc` back out; nothing happens while a deletion runs.
/// Otherwise: `Esc` back to the welcome menu, `r` shows the secret,
/// `w` asks to wipe, `p` pushes again, `t` probes again, `a` adds a
/// connection and `D` asks to delete the active one, unless it is the
/// last.
pub open spec fn manage_step(a: App, b: App, key: KeyEvent) -> bool {
    match a.manage_stage {
        ManageStage::WipeConfirm => match key.code {
            KeyCode::Char('y') | KeyCode::Char('Y') => wipe_requested(a, b),
            KeyCode::Char('n') | KeyCode::Char('N') | KeyCode::Esc => manage_stage_set(
                a,
                b,
                ManageStage::Viewing,
            ),
            _ => b == a,
        },
        ManageStage::Wiping => b == a,
        ManageStage::DeleteInnerConfirm => match key.code {
            KeyCode::Char('y') | KeyCode::Char('Y') => delete_requested(a, b),
            KeyCode::Char('n') | KeyCode::Char('N') | KeyCode::Esc => manage_viewing(a, b),
            _ => b == a,
        },
        ManageStage::DeletingInner => b == a,
        _ => match key.code {
            KeyCode::Esc => manage_left(a, b),
            KeyCode::Char('r') | KeyCode::Char('R') => secret_toggled(a, b),
            KeyCode::Char('w') | KeyCode::Char('W') => manage_stage_set(
                a,
                b,
                ManageStage::WipeConfirm,
            ),
            KeyCode::Char('p') | KeyCode::Char('P') => entered_push_flow(
                a,
                b,
                PushFlowMode::Push,
                Some(Screen::ProfileManage),
            ),
            KeyCode::Char('t') | KeyCode::Char('T') => retest_started(a, b),
            KeyCode::Char('a') | KeyCode::Char('A') => if container_at_hand(a) {
                started_add_inner(a, b)
            } else {
                manage_message(a, b, "internal: no cached KEK; cannot add connection"@)
            },
            KeyCode::Char('D') => if !container_at_hand(a) {
                manage_message(a, b, "internal: no cached KEK; cannot delete connection"@)
            } else if a.unlocked_set.unwrap()@.len() <= 1 {
                manage_message(
                    a,
                    b,
                    "this is the last profile in the container — use `w` to wipe everything, or `a` to add another first"@,
                )
            } else {
                manage_viewing_then_confirm(a, b)
            },
            _ => b == a,
        },
    }
}

/// The message is cleared and the deletion awaits confirmation.
#[verifier::opaque]
pub open spec fn manage_viewing_then_confirm(a: App, b: App) -> bool {
    b == (App { manage_unlock_error: None, manage_stage: ManageStage::DeleteInnerConfirm, ..a })
}

fn set_manage_stage(a: App, st: ManageStage) -> (b: App)
    ensures
        manage_stage_set(a, b, st),
{
    proof {
        reveal(manage_stage_set);
    }
    App { manage_stage: st, ..a }
}

fn request_wipe(a: App) -> (b: App)
    ensures
        wipe_requested(a, b),
{
    proof {
        reveal(wipe_requested);
    }
    App { manage_stage: ManageStage::Wiping, wipe_request: true, ..a }
}

fn request_delete(a: App) -> (b: App)
    ensures
        delete_requested(a, b),
{
    proof {
        reveal(delete_requested);
    }
    App { manage_stage: ManageStage::DeletingInner, delete_inner_request: true, ..a }
}

fn back_to_viewing(a: App) -> (b: App)
    ensures
        manage_viewing(a, b),
{
    proof {
        reveal(manage_viewing);
    }
    App { manage_stage: ManageStage::Viewing, manage_unlock_error: None, ..a }
}

fn leave_manage(a: App) -> (b: App)
    ensures
        manage_left(a, b),
{
    proof {
        reveal(manage_left);
    }
    App {
        manage_show_secret: false,
        manage_passphrase_input: TextInput::masked(),
        manage_stage: ManageStage::Locked,
        screen: Screen::Welcome,
        ..a
    }
}

fn toggle_secret(a: App) -> (b: App)
    ensures
        secret_toggled(a, b),
{
    proof {
        reveal(secret_toggled);
    }
    let v = !a.manage_show_secret;
    App { manage_show_secret: v, ..a }
}

fn start_retest(a: App) -> (b: App)
    ensures
        retest_started(a, b),
{
    proof {
        reveal(retest_started);
    }
    App { test_upload_back: Some(Screen::ProfileManage), screen: Screen::TestUpload, ..a }
}

fn show_manage_message(a: App, msg: &str) -> (b: App)
    ensures
        manage_message(a, b, msg@),
{
    proof {
        reveal(manage_message);
    }
    App { manage_unlock_error: Some(from_str(msg)), ..a }
}

fn confirm_delete_next(a: App) -> (b: App)
    ensures
        manage_viewing_then_confirm(a, b),
{
    proof {
        reveal(manage_viewing_then_confirm);
    }
    App { manage_unlock_error: None, manage_stage: ManageStage::DeleteInnerConfirm, ..a }
}

fn set_len(a: &App) -> (n: usize)
    requires
        a.unlocked_set is Some,
    ensures
        n == a.unlocked_set.unwrap()@.len(),
{
    match &a.unlocked_set {
        Some(s) => s.profiles.len(),
        None => 0,
    }
}

pub(crate) fn handle_profile_manage(a: App, key: KeyEvent) -> (b: App)
    ensures
        manage_step(a, b, key),
{
    match a.manage_stage {
        ManageStage::WipeConfirm => match key.code {
            KeyCode::Char('y') | KeyCode::Char('Y') => request_wipe(a),
            KeyCode::Char('n') | KeyCode::Char('N') | KeyCode::Esc => set_manage_stage(
                a,
                ManageStage::Viewing,
            ),
            _ => a,
        },
        ManageStage::Wiping => a,
        ManageStage::DeleteInnerConfirm => match key.code {
            KeyCode::Char('y') | KeyCode::Char('Y') => request_delete(a),
            KeyCode::Char('n') | KeyCode::Char('N') | KeyCode::Esc => back_to_viewing(a),
            _ => a,
        },
        ManageStage::DeletingInner => a,
        _ => match key.code {
            KeyCode::Esc => leave_manage(a),
            KeyCode::Char('r') | KeyCode::Char('R') => toggle_secret(a),
            KeyCode::Char('w') | KeyCode::Char('W') => set_manage_stage(a, ManageStage::WipeConfirm),
            KeyCode::Char('p') | KeyCode::Char('P') => enter_push_flow(
                a,
                PushFlowMode::Push,
                Some(Screen::ProfileManage),
            ),
            KeyCode::Char('t') | KeyCode::Char('T') => start_retest(a),
            KeyCode::Char('a') | KeyCode::Char('A') => {
                if a.unlocked_kek.is_some() && a.unlocked_set.is_some() {
                    start_add_inner_profile(a)
                } else {
                    show_manage_message(a, "internal: no cached KEK; cannot add connection")
                }
            },
            KeyCode::Char('D') => {
                if !(a.unlocked_kek.is_some() && a.unlocked_set.is_some()) {
                    show_manage_message(a, "internal: no cached KEK; cannot delete connection")
                } else if set_len(&a) <= 1 {
                    show_manage_message(
                        a,
                        "this is the last profile in the container — use `w` to wipe everything, or `a` to add another first",
                    )
                } else {
                    confirm_delete_next(a)
                }
            },
            _ => a,
        },
    }
}

/// The unlocked container is dropped from memory and the screen
/// becomes `s`.
#[verifier::opaque]
pub open spec fn picker_locked(a: App, b: App, s: Screen) -> bool {
    b == (App {
        unlocked_set: None,
        unlocked_kek: None,
        picker_index: 0,
        picker_default_alias: None,
        unlocked_profile: None,
        screen: s,
        ..a
    })
}

/// The picker's row becomes `i`.
#[verifier::opaque]
pub open spec fn picker_row_set(a: App, b: App, i: usize) -> bool {
    b == (App { picker_index: i, ..a })
}

/// The highlighted connection becomes the active one: the wizard takes
/// it over and the manage screen opens.
#[verifier::opaque]
pub open spec fn picker_confirmed(a: App, b: App, sel: PlainProfileView) -> bool {
    exists|m: App|
        {
            &&& hydrated(a, m, sel)
            &&& opt_str_view(b.saved_path) == saved_path_after(a)
            &&& crate::app::opt_profile_view(b.unlocked_profile) == Some(sel)
            &&& b == (App {
                saved_path: b.saved_path,
                unlocked_profile: b.unlocked_profile,
                manage_stage: ManageStage::Viewing,
                manage_unlock_error: None,
                screen: Screen::ProfileManage,
                ..m
            })
        }
}

pub open spec fn picker_len(a: App) -> nat {
    match a.unlocked_set {
        Some(s) => s@.len(),
        None => 0,
    }
}

/// A key on the connection picker. With nothing unlocked it locks and
/// returns to the welcome menu. Arrows move the row, wrapping around;
/// `Enter` opens the highlighted connection; `Esc` locks and returns.
pub open spec fn picker_step(a: App, b: App, key: KeyEvent) -> bool {
    let n = picker_len(a);
    let i = a.picker_index;
    if n == 0 {
        picker_locked(a, b, Screen::Welcome)
    } else {
        match key.code {
            KeyCode::Up | KeyCode::Char('k') => picker_row_set(
                a,
                b,
                if i == 0 {
                    (n - 1) as usize
                } else {
                    (i - 1) as usize
                },
            ),
            KeyCode::Down | KeyCode::Char('j') => picker_row_set(a, b, ((i + 1) % (n as int)) as usize),
            KeyCode::Enter => if i < n {
                picker_confirmed(a, b, a.unlocked_set.unwrap()@[i as int])
            } else {
                b == a
            },
            KeyCode::Esc => picker_locked(a, b, Screen::Welcome),
            _ => b == a,
        }
    }
}

pub(crate) fn lock_picker(a: App, s: Screen) -> (b: App)
    ensures
        picker_locked(a, b, s),
{
    proof {
        reveal(picker_locked);
    }
    App {
        unlocked_set: None,
        unlocked_kek: None,
        picker_index: 0,
        picker_default_alias: None,
        unlocked_profile: None,
        screen: s,
        ..a
    }
}

fn set_picker_row(a: App, i: usize) -> (b: App)
    ensures
        picker_row_set(a, b, i),
{
    proof {
        reveal(picker_row_set);
    }
    App { picker_index: i, ..a }
}

pub(crate) fn confirm_picker_selection(a: App) -> (b: App)
    requires
        a.unlocked_set is Some,
        a.picker_index < a.unlocked_set.unwrap()@.len(),
    ensures
        picker_confirmed(a, b, a.unlocked_set.unwrap()@[a.picker_index as int]),
{
    let profile = match &a.unlocked_set {
        Some(set) => {
            assert(set@[a.picker_index as int] == set.profiles@[a.picker_index as int]@);
            set.profiles[a.picker_index].duplicate()
        },
        None => {
            proof {
                assert(false);
            }
            return a;
        },
    };
    let saved = a.saved_path_at_active();
    let ghost ga = a;
    let m = hydrate_from_inner(a, &profile);
    let ghost gm = m;
    let b = App {
        saved_path: saved,
        unlocked_profile: Some(profile),
        manage_stage: ManageStage::Viewing,
        manage_unlock_error: None,
        screen: Screen::ProfileManage,
        ..m
    };
    proof {
        reveal(picker_confirmed);
        assert(hydrated(ga, gm, ga.unlocked_set.unwrap()@[ga.picker_index as int]));
    }
    b
}

fn picker_len_exec(a: &App) -> (n: usize)
    ensures
        n == picker_len(*a),
{
    match &a.unlocked_set {
        Some(s) => s.profiles.len(),
        None => 0,
    }
}

pub(crate) fn handle_container_picker(a: App, key: KeyEvent) -> (b: App)
    ensures
        picker_step(a, b, key),
{
    let n = picker_len_exec(&a);
    let i = a.picker_index;
    if n == 0 {
        return lock_picker(a, Screen::Welcome);
    }
    match key.code {
        KeyCode::Up | KeyCode::Char('k') => {
            let j = if i == 0 {
                n - 1
            } else {
                i - 1
            };
            set_picker_row(a, j)
        },
        KeyCode::Down | KeyCode::Char('j') => {
            let j = (i % n + 1) % n;
            proof {
                vstd::arithmetic::div_mod::lemma_add_mod_noop(i as int, 1, n as int);
                if n > 1 {
                    vstd::arithmetic::div_mod::lemma_small_mod(1, n as nat);
                }
                vstd::arithmetic::div_mod::lemma_mod_bound(i as int, n as int);
            }
            set_picker_row(a, j)
        },
        KeyCode::Enter => {
            if i < n {
                confirm_picker_selection(a)
            } else {
                a
            }
        },
        KeyCode::Esc => lock_picker(a, Screen::Welcome),
        _ => a,
    }
}

/// Leaving the alias prompt: for the manage screen when a connection
/// is active, else for the picker when a container is unlocked, else
/// for the welcome menu.
#[verifier::opaque]
pub open spec fn inner_alias_left(a: App, b: App) -> bool {
    &&& b.inner_alias_input@ == empty_input()
    &&& b == (App {
        inner_alias_input: b.inner_alias_input,
        inner_alias_state: InnerAliasState::Editing,
        inner_alias_error: None,
        screen: if a.unlocked_profile is Some {
            Screen::ProfileManage
        } else if a.unlocked_set is Some {
            Screen::ContainerPicker
        } else {
            Screen::Welcome
        },
        ..a
    })
}

/// The alias field becomes `t`.
#[verifier::opaque]
pub open spec fn inner_alias_set(a: App, b: App, t: TextInputView) -> bool {
    &&& b.inner_alias_input@ == t
    &&& b == (App { inner_alias_input: b.inner_alias_input, ..a })
}

/// The alias is refused for `why`.
#[verifier::opaque]
pub open spec fn inner_alias_refused(a: App, b: App, why: Seq<char>) -> bool {
    &&& opt_str_view(b.inner_alias_error) == Some(why)
    &&& b == (App {
        inner_alias_state: InnerAliasState::Failed,
        inner_alias_error: b.inner_alias_error,
        ..a
    })
}

/// First setup: the alias is kept for the container and the passphrase
/// screen opens.
#[verifier::opaque]
pub open spec fn inner_alias_stashed(a: App, b: App, alias: Seq<char>) -> bool {
    &&& b.state@ == (WizardStateView { alias_override: Some(alias), ..a.state@ })
    &&& b.inner_alias_input@ == empty_input()
    &&& b == (App {
        state: b.state,
        inner_alias_input: b.inner_alias_input,
        inner_alias_state: InnerAliasState::Editing,
        inner_alias_error: None,
        screen: Screen::ProfilePassphrase,
        ..a
    })
}

/// Adding a connection: the driver is asked to append it.
#[verifier::opaque]
pub open spec fn inner_add_requested(a: App, b: App) -> bool {
    b == (App {
        inner_alias_state: InnerAliasState::Saving,
        inner_alias_error: None,
        add_inner_request: true,
        ..a
    })
}

/// `Enter` on the alias prompt, on the trimmed alias: refused when the
/// alias check fails or the container already has it; kept for a first
/// setup; appended when adding a connection.
pub open spec fn inner_alias_entered(a: App, b: App, ctx: KeyContext) -> bool {
    let alias = trim_spec(a.inner_alias_input@.value);
    if !ctx.alias_valid {
        inner_alias_refused(a, b, "alias rejected (charset / length)"@)
    } else if a.unlocked_set is Some && position_of_alias(a.unlocked_set.unwrap()@, alias) is Some {
        inner_alias_refused(a, b, "alias already exists in this container"@)
    } else if a.wizard_mode != WizardMode::AddInnerProfile {
        inner_alias_stashed(a, b, alias)
    } else {
        inner_add_requested(a, b)
    }
}

/// A key on the alias prompt. Nothing happens while the connection is
/// appended; `Tab` offers a fresh suggestion; control characters are
/// not typed.
pub open spec fn inner_alias_step(a: App, b: App, key: KeyEvent, ctx: KeyContext) -> bool {
    if a.inner_alias_state == InnerAliasState::Saving {
        b == a
    } else {
        let t = a.inner_alias_input@;
        match key.code {
            KeyCode::Esc => inner_alias_left(a, b),
            KeyCode::Tab => prepared_inner_alias(a, b, ctx.seed),
            KeyCode::Backspace => inner_alias_set(a, b, t.backspaced()),
            KeyCode::Char(c) => if !is_control(c) {
                inner_alias_set(a, b, t.typed(c))
            } else {
                b == a
            },
            KeyCode::Enter => inner_alias_entered(a, b, ctx),
            _ => b == a,
        }
    }
}

fn leave_inner_alias(a: App) -> (b: App)
    ensures
        inner_alias_left(a, b),
{
    proof {
        reveal(inner_alias_left);
    }
    let s = if a.unlocked_profile.is_some() {
        Screen::ProfileManage
    } else if a.unlocked_set.is_some() {
        Screen::ContainerPicker
    } else {
        Screen::Welcome
    };
    App {
        inner_alias_input: TextInput::new(),
        inner_alias_state: InnerAliasState::Editing,
        inner_alias_error: None,
        screen: s,
        ..a
    }
}

fn set_inner_alias(a: App, t: TextInput) -> (b: App)
    ensures
        inner_alias_set(a, b, t@),
{
    proof {
        reveal(inner_alias_set);
    }
    App { inner_alias_input: t, ..a }
}

fn refuse_inner_alias(a: App, why: &str) -> (b: App)
    ensures
        inner_alias_refused(a, b, why@),
{
    proof {
        reveal(inner_alias_refused);
    }
    App { inner_alias_state: InnerAliasState::Failed, inner_alias_error: Some(from_str(why)), ..a }
}

fn stash_inner_alias(a: App, alias: String) -> (b: App)
    ensures
        inner_alias_stashed(a, b, alias@),
{
    proof {
        reveal(inner_alias_stashed);
    }
    App {
        state: WizardState { alias_override: Some(alias), ..a.state },
        inner_alias_input: TextInput::new(),
        inner_alias_state: InnerAliasState::Editing,
        inner_alias_error: None,
        screen: Screen::ProfilePassphrase,
        ..a
    }
}

fn request_inner_add(a: App) -> (b: App)
    ensures
        inner_add_requested(a, b),
{
    proof {
        reveal(inner_add_requested);
    }
    App {
        inner_alias_state: InnerAliasState::Saving,
        inner_alias_error: None,
        add_inner_request: true,
        ..a
    }
}

fn enter_inner_alias(a: App, ctx: KeyContext) -> (b: App)
    ensures
        inner_alias_entered(a, b, ctx),
{
    let alias = trim(a.inner_alias_input.value());
    if !ctx.alias_valid {
        return refuse_inner_alias(a, "alias rejected (charset / length)");
    }
    let taken = match &a.unlocked_set {
        Some(set) => set.contains_alias(alias.as_str()),
        None => false,
    };
    if taken {
        refuse_inner_alias(a, "alias already exists in this container")
    } else if a.wizard_mode != WizardMode::AddInnerProfile {
        stash_inner_alias(a, alias)
    } else {
        request_inner_add(a)
    }
}

pub(crate) fn handle_inner_alias(a: App, key: KeyEvent, ctx: KeyContext) -> (b: App)
    ensures
        inner_alias_step(a, b, key, ctx),
{
    if a.inner_alias_state == InnerAliasState::Saving {
        return a;
    }
    let mut t = a.inner_alias_input.clone();
    match key.code {
        KeyCode::Esc => leave_inner_alias(a),
        KeyCode::Tab => prepare_inner_alias_input(a, ctx.seed),
        KeyCode::Backspace => {
            t.backspace();
            set_inner_alias(a, t)
        },
        KeyCode::Char(c) => {
            if !char_is_control(c) {
                t.push_char(c);
                set_inner_alias(a, t)
            } else {
                a
            }
        },
        KeyCode::Enter => enter_inner_alias(a, ctx),
        _ => a,
    }
}

} // verus!
