//! Properties of the application state machine that span several
//! operations: what every key does while a request is in flight, where
//! the menu cursors can go, and how the unlocked-container cache
//! behaves across unlocking, reopening and wiping.

use vstd::prelude::*;
use crate::app::{
    App, cache_hit, exited_push_flow, opened_cached_profile, opened_profile, opened_profile_prompt,
    quits,
};
use crate::app_keys::{key_step, moved_welcome_cursor, welcome_items_spec};
use crate::input::TextInputView;
use crate::keys::{KeyCode, KeyContext, KeyEvent, is_ctrl_c};
use crate::keys_manage::{picker_len, picker_row_set};
use crate::screens::{InnerAliasState, Screen};
use crate::unlock_results::{unlocked_to_picker, wiped};
use crate::profile::{ProfileKek, ProfileSet};
use crate::app::ProfileSource;
use crate::wizard::{
    DeviceSetupView, DropboxSetupView, ManageStage, ProviderKind, WelcomeItem, WizardStateView,
    fresh_push_flow, index_of, lemma_index_of, next_item, previous_item,
};
use crate::qr::{half_line, module_at, quadrant_line};
use crate::theme::colored_spec;
use crate::save::{first_at_from, save_alias_spec};
use crate::content::passphrase_check_spec;
use crate::widgets::CheckStatus;
use crate::keys_wizard::{next_provider, picked_provider, previous_provider};

verus! {

/// `Ctrl-C` quits from every screen and changes nothing else.
pub proof fn law_ctrl_c_quits_everywhere(a: App, b: App, key: KeyEvent, ctx: KeyContext)
    requires
        key_step(a, b, key, ctx),
        is_ctrl_c(key),
    ensures
        b == (App { should_quit: true, ..a }),
{
    reveal(quits);
}

/// The screen is waiting for the answer to a request it sent: the
/// passphrase is being encrypted, a login, code check, alias listing or
/// upload is under way, the container is being unlocked, wiped or
/// edited, or the upload probe runs.
pub open spec fn waiting_for_answer(a: App) -> bool {
    match a.screen {
        Screen::ProfilePassphrase => a.passphrase_stage is Encrypting,
        Screen::Account => a.push_flow.stage is AccountSending,
        Screen::LoginTotp => a.push_flow.stage is TotpSending,
        Screen::PushProfile => a.push_flow.stage is PushSending || a.push_flow.stage is PushFetching,
        Screen::ProfileUnlock => a.manage_stage == ManageStage::Unlocking,
        Screen::ProfileManage => a.manage_stage == ManageStage::Wiping || a.manage_stage
            == ManageStage::DeletingInner,
        Screen::InnerAlias => a.inner_alias_state == InnerAliasState::Saving,
        Screen::TestUpload => a.test_running,
        _ => false,
    }
}

/// While a screen waits for an answer, every key but `Ctrl-C` is
/// ignored: nothing changes.
pub proof fn law_waiting_screens_ignore_keys(a: App, b: App, key: KeyEvent, ctx: KeyContext)
    requires
        key_step(a, b, key, ctx),
        waiting_for_answer(a),
        !is_ctrl_c(key),
    ensures
        b == a,
{
}

proof fn lemma_next_previous_in_menu(item: WelcomeItem, avail: Seq<WelcomeItem>)
    requires
        avail.len() > 0,
    ensures
        avail.contains(next_item(item, avail)),
        avail.contains(previous_item(item, avail)),
{
    lemma_index_of(avail, item);
    match index_of(avail, item) {
        Some(i) => {
            if i + 1 < avail.len() {
                assert(avail[i + 1] == next_item(item, avail));
            } else {
                assert(avail[0] == next_item(item, avail));
            }
            if i == 0 {
                assert(avail[avail.len() - 1] == previous_item(item, avail));
            } else {
                assert(avail[i - 1] == previous_item(item, avail));
            }
        },
        None => {
            assert(avail[0] == next_item(item, avail));
            assert(avail[0] == previous_item(item, avail));
        },
    }
}

/// Moving the welcome cursor with the arrow keys always lands on an
/// item the menu shows.
pub proof fn law_welcome_cursor_stays_on_menu(a: App, b: App, key: KeyEvent, ctx: KeyContext)
    requires
        key_step(a, b, key, ctx),
        !is_ctrl_c(key),
        a.screen == Screen::Welcome,
        key.code == KeyCode::Up || key.code == KeyCode::Down || key.code == KeyCode::Char('k')
            || key.code == KeyCode::Char('j'),
    ensures
        welcome_items_spec(b).contains(b.welcome_item),
{
    reveal(moved_welcome_cursor);
    let items = welcome_items_spec(a);
    assert(items.len() > 0);
    lemma_next_previous_in_menu(a.welcome_item, items);
    assert(welcome_items_spec(b) == items);
}

/// On the connection picker the arrow keys keep the highlighted row
/// inside the list.
pub proof fn law_picker_row_stays_in_list(a: App, b: App, key: KeyEvent, ctx: KeyContext)
    requires
        key_step(a, b, key, ctx),
        !is_ctrl_c(key),
        a.screen == Screen::ContainerPicker,
        picker_len(a) > 0,
        a.picker_index < picker_len(a),
        key.code == KeyCode::Up || key.code == KeyCode::Down || key.code == KeyCode::Char('k')
            || key.code == KeyCode::Char('j'),
    ensures
        b.picker_index < picker_len(b),
{
    reveal(picker_row_set);
}

/// Leaving the account sub-flow drops every request it had queued and
/// resets its state.
pub proof fn law_leaving_push_flow_drops_requests(a: App, b: App, target: Screen)
    requires
        exited_push_flow(a, b, target),
    ensures
        !b.push_request_login,
        !b.push_request_totp,
        !b.push_request_list,
        !b.push_request_send,
        !b.signin_request_download,
        !b.rewrite_blob_for_alias_request,
        b.push_flow@ == fresh_push_flow(),
        b.screen == target,
{
    reveal(exited_push_flow);
}

/// A container unlocked to the picker reopens from the same source
/// without the passphrase prompt: the picker comes back.
pub proof fn law_reopening_unlocked_container_skips_passphrase(
    a: App,
    b: App,
    set: ProfileSet,
    kek: ProfileKek,
    default: Option<String>,
    c: App,
)
    requires
        unlocked_to_picker(a, b, set, kek, default),
        opened_profile(b, c, a.unlock_source),
    ensures
        cache_hit(b, a.unlock_source),
        c.screen == Screen::ContainerPicker,
        c.unlocked_set == Some(set),
{
    reveal(unlocked_to_picker);
    reveal(opened_cached_profile);
}

/// Opening a container that is not the one held unlocked drops the
/// held one and asks for the passphrase.
pub proof fn law_opening_other_container_prompts(a: App, b: App, target: ProfileSource)
    requires
        !cache_hit(a, target),
        opened_profile(a, b, target),
    ensures
        b.screen == Screen::ProfileUnlock,
        b.unlocked_set is None,
        b.unlocked_kek is None,
        b.unlocked_profile is None,
        b.cached_source is None,
        b.unlock_source == target,
{
    reveal(opened_profile_prompt);
}

/// After a wipe nothing is held unlocked: opening any container asks
/// for its passphrase again.
pub proof fn law_wipe_forgets_unlocked_container(a: App, b: App, target: ProfileSource, c: App)
    requires
        wiped(a, b),
        opened_profile(b, c, target),
    ensures
        !cache_hit(b, target),
        c.screen == Screen::ProfileUnlock,
        c.unlocked_set is None,
        c.unlocked_kek is None,
{
    reveal(opened_profile_prompt);
}

/// Typing a character and then deleting it gives back the input as it
/// was, wherever the cursor stands.
pub proof fn law_backspace_undoes_typing(v: TextInputView, c: char)
    requires
        v.wf(),
    ensures
        v.typed(c).backspaced() == v,
{
    let t = v.typed(c);
    let head = v.value.subrange(0, v.cursor as int);
    let tail = v.value.subrange(v.cursor as int, v.value.len() as int);
    assert(t.value.subrange(0, t.cursor - 1) =~= head);
    assert(t.value.subrange(t.cursor as int, t.value.len() as int) =~= tail);
    assert(head + tail =~= v.value);
}

// ─── what the screens show ──────────────────────────────────────────

/// Whether the upper half of a block glyph is inked.
pub open spec fn upper_inked(c: char) -> bool {
    c == '█' || c == '▀'
}

/// Whether the lower half of a block glyph is inked.
pub open spec fn lower_inked(c: char) -> bool {
    c == '█' || c == '▄'
}

/// Every cell of a half-block QR row shows its two modules: the cell is
/// a blank, an upper half, a lower half or a full block, its upper half
/// inked exactly when the module above is dark and its lower half
/// exactly when the module below is; a quiet blank cell stands at each
/// end of the row.
pub proof fn law_half_block_cells_show_their_modules(m: Seq<bool>, w: nat, r: int, x: int)
    requires
        0 <= x < w,
    ensures
        half_line(m, w, r).len() == w + 2,
        half_line(m, w, r)[0] == ' ',
        half_line(m, w, r)[w + 1int] == ' ',
        ({
            let c = half_line(m, w, r)[x + 1];
            &&& c == ' ' || c == '▀' || c == '▄' || c == '█'
            &&& upper_inked(c) == module_at(m, w as int, x, 2 * r)
            &&& lower_inked(c) == module_at(m, w as int, x, 2 * r + 1)
        }),
{
}

/// Whether each quadrant of a quadrant glyph is inked: upper left,
/// upper right, lower left, lower right.
pub open spec fn quadrants_inked(c: char) -> (bool, bool, bool, bool) {
    (
        c == '█' || c == '▛' || c == '▜' || c == '▀' || c == '▙' || c == '▌' || c == '▚' || c == '▘',
        c == '█' || c == '▛' || c == '▜' || c == '▀' || c == '▟' || c == '▞' || c == '▐' || c == '▝',
        c == '█' || c == '▛' || c == '▙' || c == '▌' || c == '▟' || c == '▞' || c == '▄' || c == '▖',
        c == '█' || c == '▜' || c == '▙' || c == '▚' || c == '▟' || c == '▐' || c == '▄' || c == '▗',
    )
}

/// Every cell of a quadrant QR row shows its 2×2 block of modules: each
/// quadrant of the glyph is inked exactly when its module is dark.
pub proof fn law_quadrant_cells_show_their_modules(m: Seq<bool>, w: nat, r: int, c: int)
    requires
        0 <= c < (w + 1) / 2,
    ensures
        quadrants_inked(quadrant_line(m, w, r)[c + 1]) == (
            module_at(m, w as int, 2 * c, 2 * r),
            module_at(m, w as int, 2 * c + 1, 2 * r),
            module_at(m, w as int, 2 * c, 2 * r + 1),
            module_at(m, w as int, 2 * c + 1, 2 * r + 1),
        ),
{
}

pub open spec fn non_empty(v: Option<Seq<char>>) -> bool {
    v matches Some(s) && s.len() > 0
}

/// The colour switches: a non-empty `NO_COLOR` and `CLICOLOR=0` each
/// turn colour off, whatever else is set and whether or not the output
/// is a terminal; failing both, a non-empty `FORCE_COLOR` turns it on
/// even off a terminal; with no switch set, colour follows the
/// terminal. So the terminal decides only when no switch is set.
pub proof fn law_colour_switches(
    no_color: Option<Seq<char>>,
    clicolor: Option<Seq<char>>,
    force_color: Option<Seq<char>>,
    tty: bool,
)
    ensures
        non_empty(no_color) ==> !colored_spec(no_color, clicolor, force_color, tty),
        clicolor == Some("0"@) ==> !colored_spec(no_color, clicolor, force_color, tty),
        !non_empty(no_color) && clicolor != Some("0"@) && non_empty(force_color) ==> colored_spec(
            no_color,
            clicolor,
            force_color,
            tty,
        ),
        non_empty(no_color) || clicolor == Some("0"@) || non_empty(force_color) ==> colored_spec(
            no_color,
            clicolor,
            force_color,
            true,
        ) == colored_spec(no_color, clicolor, force_color, false),
        !non_empty(no_color) && clicolor != Some("0"@) && !non_empty(force_color) ==> colored_spec(
            no_color,
            clicolor,
            force_color,
            tty,
        ) == tty,
{
}

/// `a` is the text of `e` before its first `@`: a prefix of `e` holding
/// no `@`, followed in `e` by an `@` or by nothing.
pub open spec fn before_first_at(a: Seq<char>, e: Seq<char>) -> bool {
    &&& a.len() <= e.len()
    &&& a == e.subrange(0, a.len() as int)
    &&& forall|i: int| 0 <= i < a.len() ==> a[i] != '@'
    &&& a.len() < e.len() ==> e[a.len() as int] == '@'
}

proof fn lemma_first_at_from(s: Seq<char>, i: nat)
    requires
        i <= s.len(),
    ensures
        i <= first_at_from(s, i) <= s.len(),
        forall|j: int| i <= j < first_at_from(s, i) ==> s[j] != '@',
        first_at_from(s, i) < s.len() ==> s[first_at_from(s, i) as int] == '@',
    decreases s.len() - i,
{
    if i < s.len() && s[i as int] != '@' {
        lemma_first_at_from(s, i + 1);
    }
}

/// The alias a new container is saved under: a non-empty alias picked
/// on the alias screen; else the WebDAV user name for Nextcloud, and
/// for Google Drive, OneDrive and Dropbox the text of that account's
/// e-mail before its first `@`, whatever the WebDAV user name is.
pub proof fn law_save_alias(
    st: WizardStateView,
    gd: DeviceSetupView,
    od: DeviceSetupView,
    db: DropboxSetupView,
    other_username: Seq<char>,
)
    ensures
        ({
            let a = save_alias_spec(st, gd, od, db);
            match st.alias_override {
                Some(o) if o.len() > 0 => a == o,
                _ => match st.provider_kind {
                    ProviderKind::Nextcloud => a == st.username,
                    ProviderKind::GoogleDrive => before_first_at(a, gd.user_email),
                    ProviderKind::OneDrive => before_first_at(a, od.user_email),
                    ProviderKind::Dropbox => before_first_at(a, db.user_email),
                },
            }
        }),
        st.provider_kind != ProviderKind::Nextcloud ==> save_alias_spec(
            WizardStateView { username: other_username, ..st },
            gd,
            od,
            db,
        ) == save_alias_spec(st, gd, od, db),
{
    lemma_first_at_from(gd.user_email, 0);
    lemma_first_at_from(od.user_email, 0);
    lemma_first_at_from(db.user_email, 0);
    let a = save_alias_spec(st, gd, od, db);
    assert(gd.user_email.take(first_at_from(gd.user_email, 0) as int) =~= gd.user_email.subrange(
        0,
        first_at_from(gd.user_email, 0) as int,
    ));
    assert(od.user_email.take(first_at_from(od.user_email, 0) as int) =~= od.user_email.subrange(
        0,
        first_at_from(od.user_email, 0) as int,
    ));
    assert(db.user_email.take(first_at_from(db.user_email, 0) as int) =~= db.user_email.subrange(
        0,
        first_at_from(db.user_email, 0) as int,
    ));
}

/// The check under the passphrase fields reports a match only when the
/// two texts are the same non-empty text, and a mismatch whenever a
/// confirmation has been typed that differs from the passphrase, even
/// in one character; with nothing to compare yet it prompts.
pub proof fn law_match_check_compares_the_texts(pass: Seq<char>, confirm: Seq<char>)
    ensures
        passphrase_check_spec(pass, confirm).0 == CheckStatus::Pass <==> (pass.len() > 0 && pass
            =~= confirm),
        confirm.len() > 0 && !(pass =~= confirm) ==> passphrase_check_spec(pass, confirm) == (
            CheckStatus::Fail,
            "passphrases do not match"@,
        ),
        forall|i: int|
            0 <= i < pass.len() && i < confirm.len() && pass[i] != confirm[i]
                ==> #[trigger] passphrase_check_spec(pass, confirm).0 == CheckStatus::Fail,
        confirm.len() == 0 ==> passphrase_check_spec(pass, confirm) == (
            CheckStatus::Skip,
            "type a passphrase"@,
        ),
{
    assert forall|i: int|
        0 <= i < pass.len() && i < confirm.len() && pass[i] != confirm[i] implies #[trigger] passphrase_check_spec(
        pass,
        confirm,
    ).0 == CheckStatus::Fail by {
        assert(pass != confirm);
    }
}

/// The place of a provider in the picker's list: Nextcloud, Google
/// Drive, OneDrive, Dropbox.
pub open spec fn provider_rank(k: ProviderKind) -> int {
    match k {
        ProviderKind::Nextcloud => 0,
        ProviderKind::GoogleDrive => 1,
        ProviderKind::OneDrive => 2,
        ProviderKind::Dropbox => 3,
    }
}

/// Down moves the picker to the provider listed just below, Up to the
/// one just above, both wrapping around; so each undoes the other.
pub proof fn law_provider_cycle(k: ProviderKind)
    ensures
        provider_rank(next_provider(k)) == (provider_rank(k) + 1) % 4,
        provider_rank(previous_provider(k)) == (provider_rank(k) + 3) % 4,
        previous_provider(next_provider(k)) == k,
        next_provider(previous_provider(k)) == k,
{
}

proof fn lemma_provider_key(a: App, b: App, k: KeyEvent, ctx: KeyContext)
    requires
        a.screen == Screen::Provider,
        k.code == KeyCode::Down || k.code == KeyCode::Up,
        key_step(a, b, k, ctx),
    ensures
        picked_provider(
            a,
            b,
            if k.code == KeyCode::Down {
                next_provider(a.state.provider_kind)
            } else {
                previous_provider(a.state.provider_kind)
            },
        ),
{
    assert(!is_ctrl_c(k));
}

/// On the provider picker, Down then Up, or Up then Down, gives back
/// the state started from.
pub proof fn law_provider_down_up_returns(a: App, b: App, c: App, k1: KeyEvent, k2: KeyEvent, ctx: KeyContext)
    requires
        a.screen == Screen::Provider,
        (k1.code == KeyCode::Down && k2.code == KeyCode::Up) || (k1.code == KeyCode::Up && k2.code
            == KeyCode::Down),
        key_step(a, b, k1, ctx),
        key_step(b, c, k2, ctx),
    ensures
        c == a,
{
    lemma_provider_key(a, b, k1, ctx);
    reveal(picked_provider);
    lemma_provider_key(b, c, k2, ctx);
    law_provider_cycle(a.state.provider_kind);
}

} // verus!
