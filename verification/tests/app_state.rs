use zz_drop_tui::app::{server_label_for, App, ProfileSource, PushedSummary};
use zz_drop_tui::input::TextInput;
use zz_drop_tui::keys::{KeyCode, KeyContext, KeyEvent, KeyModifiers};
use zz_drop_tui::profile::{
    CollisionPolicy, NextcloudAuthKind, NextcloudConnection, OAuthConnection, PlainProfile,
    ProfileKek, ProfileSet, ProviderProfile,
};
use zz_drop_tui::screens::{AuthFocus, Screen};
use zz_drop_tui::widgets::AgentPill;
use zz_drop_tui::wizard::{
    AuthKind, CollisionChoice, GoogleDriveSetupStage, ManageStage, PassphraseStage, ProbeStepStatus,
    ProviderKind, PushFlowMode, PushFlowState, PushStage, TestOutcome, WelcomeItem, WizardMode,
};

#[test]
fn server_label_strips_scheme_and_path() {
    assert_eq!(server_label_for("https://zz-drop.net"), "zz-drop.net");
    assert_eq!(server_label_for("http://localhost:8080"), "localhost:8080");
    assert_eq!(
        server_label_for("https://api.example.org/v1"),
        "api.example.org"
    );
    // Non-URL falls through unchanged.
    assert_eq!(server_label_for("example.org"), "example.org");
}

fn key(code: KeyCode) -> KeyEvent {
    KeyEvent::new(code, KeyModifiers::Plain)
}

/// The verdicts the driver hands over with each key, computed here the
/// way the account, strength and alias checks judge the test inputs.
fn ctx_for(app: &App) -> KeyContext {
    let email = app.account_email_input.value();
    let email_plausible = match email.split_once('@') {
        Some((local, domain)) => {
            !local.is_empty() && !domain.contains('@') && domain.contains('.')
                && !domain.starts_with('.') && !domain.ends_with('.')
        }
        None => false,
    };
    let alias = app.inner_alias_input.value().trim().to_string();
    let alias_valid = !alias.is_empty()
        && alias.chars().all(|c| c.is_ascii_alphanumeric() || c == '-' || c == '_');
    KeyContext {
        email_plausible,
        passphrase_weak: app.passphrase_input.value().chars().count() < 12,
        alias_valid,
        folder_encodable: true,
        seed: 0,
    }
}

fn press(app: &mut App, code: KeyCode) {
    let ctx = ctx_for(app);
    app.on_key(key(code), ctx);
}

/// Reset App into the "no local profile.zz on disk" state so a
/// test that exercises the wizard entry path is deterministic
/// regardless of whether the dev machine actually has a profile.
fn fresh_no_profile() -> App {
    let mut app = App::new();
    app.local_exists = false;
    app.remote_exists = false;
    app.welcome_item = WelcomeItem::Configure;
    app.unlocked_profile = None;
    app
}

#[test]
fn welcome_to_provider_via_enter() {
    let mut app = fresh_no_profile();
    press(&mut app, KeyCode::Enter);
    assert_eq!(app.screen, Screen::Provider);
}

#[test]
fn welcome_arrow_down_walks_to_quit_then_enter_quits() {
    let mut app = fresh_no_profile();
    app.remote_enabled = true;
    // Fresh menu (remote build): Configure → ConfigureRemote →
    // SignIn → Quit. Default build collapses to Configure → Quit
    // and is covered by the sibling test below.
    assert_eq!(app.welcome_item, WelcomeItem::Configure);
    press(&mut app, KeyCode::Down);
    assert_eq!(app.welcome_item, WelcomeItem::ConfigureRemote);
    press(&mut app, KeyCode::Down);
    assert_eq!(app.welcome_item, WelcomeItem::SignIn);
    press(&mut app, KeyCode::Down);
    assert_eq!(app.welcome_item, WelcomeItem::Quit);
    press(&mut app, KeyCode::Enter);
    assert!(app.should_quit);
    assert_eq!(app.screen, Screen::Welcome);
}

#[test]
fn welcome_arrow_down_walks_to_quit_then_enter_quits_local_only() {
    // Default-build menu collapses to Configure → Quit only.
    let mut app = fresh_no_profile();
    assert_eq!(app.welcome_item, WelcomeItem::Configure);
    press(&mut app, KeyCode::Down);
    assert_eq!(app.welcome_item, WelcomeItem::Quit);
    press(&mut app, KeyCode::Enter);
    assert!(app.should_quit);
}

#[test]
fn welcome_arrow_up_wraps_to_quit() {
    let mut app = fresh_no_profile();
    press(&mut app, KeyCode::Up);
    assert_eq!(app.welcome_item, WelcomeItem::Quit);
}

#[test]
fn welcome_with_existing_local_profile_defaults_to_open_local() {
    let mut app = App::new();
    app.local_exists = true;
    app.welcome_item = WelcomeItem::OpenLocal;
    press(&mut app, KeyCode::Enter);
    assert_eq!(app.screen, Screen::ProfileUnlock);
    assert_eq!(app.unlock_source, ProfileSource::Local);
}

#[test]
fn welcome_with_existing_remote_profile_defaults_to_open_remote() {
    let mut app = App::new();
    app.remote_exists = true;
    app.welcome_item = WelcomeItem::OpenRemote;
    press(&mut app, KeyCode::Enter);
    assert_eq!(app.screen, Screen::ProfileUnlock);
    assert_eq!(app.unlock_source, ProfileSource::Remote);
}

fn dummy_profile() -> PlainProfile {
    PlainProfile {
        profile_version: 1,
        profile_id: "test".into(),
        alias: "test".into(),
        default_target: "nextcloud".into(),
        providers: vec![ProviderProfile::Nextcloud(NextcloudConnection {
            server_url: "https://example.org".into(),
            username: "alice".into(),
            auth_kind: NextcloudAuthKind::AppPassword,
            secret: "x".into(),
            remote_root: "/zz-drop".into(),
        })],
        collision_policy: CollisionPolicy::Rename,
        settings_from: None,
        created_at: "2026-01-01T00:00:00Z".into(),
        updated_at: "2026-01-01T00:00:00Z".into(),
    }
}

#[test]
fn reopening_same_source_is_a_cache_hit_and_skips_passphrase() {
    // First unlock (test sets up: cached_source + unlocked_set).
    let mut app = App::new();
    app.local_exists = true;
    app.unlock_source = ProfileSource::Local;
    app.apply_unlock_done(dummy_profile());
    // Bridge for the legacy single-profile `apply_unlock_done`
    // path: the new picker logic checks `unlocked_set`. A 1-set
    // is the natural shim.
    app.unlocked_set = Some(ProfileSet::with_profile(dummy_profile()));
    assert_eq!(app.cached_source, Some(ProfileSource::Local));
    // Esc back to Welcome — cache must survive.
    app.screen = Screen::ProfileManage;
    app.manage_stage = ManageStage::Viewing;
    press(&mut app, KeyCode::Esc);
    assert_eq!(app.screen, Screen::Welcome);
    assert!(app.unlocked_profile.is_some());
    assert_eq!(app.cached_source, Some(ProfileSource::Local));
    // Re-pick OpenLocal — must skip the passphrase prompt and
    // land on the picker (so the operator can choose any inner
    // profile, not just the previously-active one).
    app.welcome_item = WelcomeItem::OpenLocal;
    press(&mut app, KeyCode::Enter);
    assert_eq!(app.screen, Screen::ContainerPicker);
}

#[test]
fn opening_other_source_clears_cache_and_re_prompts() {
    let mut app = App::new();
    app.local_exists = true;
    app.remote_exists = true;
    app.unlock_source = ProfileSource::Remote;
    app.apply_unlock_done(dummy_profile());
    assert_eq!(app.cached_source, Some(ProfileSource::Remote));
    // Esc to Welcome, then pick the *other* source (Local).
    app.screen = Screen::ProfileManage;
    app.manage_stage = ManageStage::Viewing;
    press(&mut app, KeyCode::Esc);
    app.welcome_item = WelcomeItem::OpenLocal;
    press(&mut app, KeyCode::Enter);
    // Must clear the old cache and re-prompt for passphrase.
    assert_eq!(app.screen, Screen::ProfileUnlock);
    assert_eq!(app.unlock_source, ProfileSource::Local);
    assert!(app.unlocked_profile.is_none());
    assert_eq!(app.cached_source, None);
}

#[test]
fn wipe_clears_cache() {
    let mut app = App::new();
    app.local_exists = true;
    app.unlock_source = ProfileSource::Local;
    app.apply_unlock_done(dummy_profile());
    assert!(app.unlocked_profile.is_some());
    app.apply_wipe_done();
    assert!(app.unlocked_profile.is_none());
    assert_eq!(app.cached_source, None);
}

#[test]
fn welcome_signin_routes_to_account_with_signin_mode() {
    let mut app = fresh_no_profile();
    app.remote_enabled = true;
    // step down past Configure → ConfigureRemote → SignIn
    press(&mut app, KeyCode::Down);
    press(&mut app, KeyCode::Down);
    assert_eq!(app.welcome_item, WelcomeItem::SignIn);
    press(&mut app, KeyCode::Enter);
    assert_eq!(app.screen, Screen::Account);
    assert_eq!(app.push_flow.mode, PushFlowMode::SignIn);
    assert_eq!(app.push_back, Some(Screen::Welcome));
}

#[test]
fn welcome_configure_remote_without_session_logs_in_first() {
    // No cached token: must hit Account before the wizard.
    let mut app = fresh_no_profile();
    app.cached_session_token = None;
    app.welcome_item = WelcomeItem::ConfigureRemote;
    press(&mut app, KeyCode::Enter);
    assert_eq!(app.wizard_mode, WizardMode::CreateRemote);
    assert_eq!(app.screen, Screen::Account);
    assert_eq!(app.post_login_target, Some(Screen::Provider));
}

#[test]
fn welcome_configure_remote_with_cached_token_skips_login() {
    // Same TUI session, already logged in — straight to wizard.
    let mut app = fresh_no_profile();
    app.cached_session_token = Some("tok".into());
    app.welcome_item = WelcomeItem::ConfigureRemote;
    press(&mut app, KeyCode::Enter);
    assert_eq!(app.wizard_mode, WizardMode::CreateRemote);
    assert_eq!(app.screen, Screen::Provider);
    assert_eq!(app.post_login_target, None);
    assert_eq!(app.push_flow.session_token.as_deref(), Some("tok"));
}

#[test]
fn route_after_login_with_post_target_goes_to_provider() {
    let mut app = App::new();
    app.post_login_target = Some(Screen::Provider);
    app.apply_login_session("tok".into());
    assert_eq!(app.screen, Screen::Provider);
    assert!(!app.push_request_list);
    assert_eq!(app.cached_session_token.as_deref(), Some("tok"));
}

#[test]
fn route_after_login_without_post_target_lists_aliases() {
    let mut app = App::new();
    app.post_login_target = None;
    app.apply_login_session("tok".into());
    assert_eq!(app.screen, Screen::PushProfile);
    assert!(app.push_request_list);
}

#[test]
fn agent_pill_no_profile_by_default() {
    let app = fresh_no_profile();
    assert_eq!(app.agent_pill(), AgentPill::NoProfile);
}

#[test]
fn agent_pill_local_when_local_unlocked() {
    let mut app = App::new();
    app.unlock_source = ProfileSource::Local;
    app.unlocked_profile = Some(dummy_profile());
    assert_eq!(
        app.agent_pill(),
        AgentPill::Local {
            alias: "test".into()
        }
    );
}

#[test]
fn agent_pill_remote_with_server_when_remote_unlocked() {
    let mut app = App::new();
    app.unlock_source = ProfileSource::Remote;
    app.unlocked_profile = Some(dummy_profile());
    app.api_base = "https://example.org/api".into();
    assert_eq!(
        app.agent_pill(),
        AgentPill::Remote {
            server: "example.org".into(),
            alias: "test".into()
        }
    );
}

#[test]
fn agent_pill_after_save_uses_wizard_mode_and_username() {
    let mut app = App::new();
    app.wizard_mode = WizardMode::CreateRemote;
    app.state.username = "casa-nc".into();
    app.saved_path = Some("/tmp/profiles-local.zz".into());
    let server = app.server_label();
    assert_eq!(
        app.agent_pill(),
        AgentPill::Remote {
            server,
            alias: "casa-nc".into()
        }
    );
}

#[test]
fn picker_enter_with_new_alias_in_wizard_mode_triggers_rewrite() {
    // Wizard push: passphrase is still in RAM, alias differs
    // from the placeholder (state.username) → main loop should
    // re-encrypt before pushing.
    let mut app = App::new();
    app.screen = Screen::PushProfile;
    app.push_flow.mode = PushFlowMode::Push;
    app.push_back = None; // wizard, not Manage re-push
    app.passphrase_input.set_value("hunter2hunter2");
    app.state.username = "alice".into();
    app.push_alias_input.set_value("casa-nc");
    press(&mut app, KeyCode::Enter);
    assert!(app.rewrite_blob_for_alias_request);
    assert!(!app.push_request_send);
}

#[test]
fn picker_enter_with_same_alias_skips_rewrite() {
    let mut app = App::new();
    app.screen = Screen::PushProfile;
    app.push_flow.mode = PushFlowMode::Push;
    app.push_back = None;
    app.passphrase_input.set_value("hunter2hunter2");
    app.state.username = "casa-nc".into();
    app.push_alias_input.set_value("casa-nc");
    press(&mut app, KeyCode::Enter);
    assert!(!app.rewrite_blob_for_alias_request);
    assert!(app.push_request_send);
}

#[test]
fn push_failed_r_retries_list_when_aliases_empty() {
    let mut app = App::new();
    app.screen = Screen::PushProfile;
    app.push_flow.mode = PushFlowMode::Push;
    app.push_flow.stage = PushStage::Failed("network error".into());
    // remote_aliases empty → retry should re-fetch the list
    press(&mut app, KeyCode::Char('r'));
    assert!(app.push_request_list);
    assert_eq!(app.push_flow.stage, PushStage::PushFetching);
}

#[test]
fn push_failed_r_retries_send_when_aliases_loaded() {
    let mut app = App::new();
    app.screen = Screen::PushProfile;
    app.push_flow.mode = PushFlowMode::Push;
    app.push_flow.remote_aliases = vec!["casa-nc".into()];
    app.push_alias_input.set_value("casa-nc");
    app.push_flow.stage = PushStage::Failed("network error".into());
    press(&mut app, KeyCode::Char('r'));
    assert!(app.push_request_send);
    assert_eq!(app.push_flow.stage, PushStage::PushSending);
}

#[test]
fn signin_failed_r_retries_download() {
    let mut app = App::new();
    app.screen = Screen::PushProfile;
    app.push_flow.mode = PushFlowMode::SignIn;
    app.push_flow.remote_aliases = vec!["casa-nc".into()];
    app.push_alias_input.set_value("casa-nc");
    app.push_flow.stage = PushStage::Failed("network error".into());
    press(&mut app, KeyCode::Char('r'));
    assert!(app.signin_request_download);
}

#[test]
fn push_failed_esc_exits_to_welcome_even_in_wizard_mode() {
    // Server outage during wizard auto-push: the operator must
    // have a way out, even though `push_back` is None.
    let mut app = App::new();
    app.screen = Screen::PushProfile;
    app.push_flow.mode = PushFlowMode::Push;
    app.push_back = None;
    app.push_flow.stage = PushStage::Failed("network error".into());
    press(&mut app, KeyCode::Esc);
    assert_eq!(app.screen, Screen::Welcome);
}

#[test]
fn account_failed_esc_exits_to_welcome_in_wizard_mode() {
    // Server outage during ConfigureRemote login: Esc must let
    // the operator out, even though push_back is None.
    let mut app = App::new();
    app.screen = Screen::Account;
    app.push_back = None;
    app.push_flow.stage = PushStage::Failed("network error".into());
    press(&mut app, KeyCode::Esc);
    assert_eq!(app.screen, Screen::Welcome);
}

#[test]
fn account_form_esc_in_wizard_mode_still_blocks() {
    // Pre-failure (form stage) wizard mode keeps the no-op
    // behaviour so the operator commits to the flow.
    let mut app = App::new();
    app.screen = Screen::Account;
    app.push_back = None;
    app.push_flow.stage = PushStage::AccountForm;
    press(&mut app, KeyCode::Esc);
    assert_eq!(app.screen, Screen::Account);
}

#[test]
fn push_failed_esc_returns_to_back_pointer_when_set() {
    // Re-push from Manage, server fails: Esc returns to Manage.
    let mut app = App::new();
    app.screen = Screen::PushProfile;
    app.push_flow.mode = PushFlowMode::Push;
    app.push_back = Some(Screen::ProfileManage);
    app.push_flow.stage = PushStage::Failed("network error".into());
    press(&mut app, KeyCode::Esc);
    assert_eq!(app.screen, Screen::ProfileManage);
}

#[test]
fn picker_enter_in_manage_re_push_skips_rewrite() {
    // Re-push from Manage: passphrase is already cleared, so we
    // can't re-encrypt. Push the file as-is.
    let mut app = App::new();
    app.screen = Screen::PushProfile;
    app.push_flow.mode = PushFlowMode::Push;
    app.push_back = Some(Screen::ProfileManage);
    app.state.username = "alice".into();
    app.push_alias_input.set_value("casa-nc");
    press(&mut app, KeyCode::Enter);
    assert!(!app.rewrite_blob_for_alias_request);
    assert!(app.push_request_send);
}

#[test]
fn agent_pill_after_push_prefers_pushed_alias() {
    let mut app = App::new();
    app.wizard_mode = WizardMode::CreateRemote;
    app.state.username = "username".into();
    app.saved_path = Some("/tmp/profiles-local.zz".into());
    app.pushed_summary = Some(PushedSummary {
        alias: "casa-nc".into(),
        blob_size: 0,
        blob_version: 0,
    });
    let server = app.server_label();
    assert_eq!(
        app.agent_pill(),
        AgentPill::Remote {
            server,
            alias: "casa-nc".into()
        }
    );
}

#[test]
fn signin_with_cached_token_skips_account_screen() {
    let mut app = fresh_no_profile();
    app.remote_enabled = true;
    app.cached_session_token = Some("tok".into());
    // Walk to SignIn: Configure → ConfigureRemote → SignIn
    press(&mut app, KeyCode::Down);
    press(&mut app, KeyCode::Down);
    assert_eq!(app.welcome_item, WelcomeItem::SignIn);
    press(&mut app, KeyCode::Enter);
    assert_eq!(app.screen, Screen::PushProfile);
    assert_eq!(app.push_flow.mode, PushFlowMode::SignIn);
    assert!(app.push_request_list);
}

#[test]
fn welcome_configure_arms_create_local_mode() {
    let mut app = fresh_no_profile();
    app.welcome_item = WelcomeItem::Configure;
    // Pre-set the other mode to make sure Configure resets it.
    app.wizard_mode = WizardMode::CreateRemote;
    press(&mut app, KeyCode::Enter);
    assert_eq!(app.screen, Screen::Provider);
    assert_eq!(app.wizard_mode, WizardMode::CreateLocal);
}

#[test]
fn apply_save_done_in_create_remote_auto_routes_to_account() {
    let mut app = App::new();
    app.wizard_mode = WizardMode::CreateRemote;
    app.apply_save_done("/tmp/profiles-local.zz".into());
    assert_eq!(app.screen, Screen::Account);
    assert_eq!(app.push_flow.mode, PushFlowMode::Push);
    assert!(app.push_back.is_none());
}

#[test]
fn apply_save_done_in_create_local_stays_on_passphrase_for_prompt() {
    let mut app = App::new();
    app.wizard_mode = WizardMode::CreateLocal;
    app.screen = Screen::ProfilePassphrase;
    app.apply_save_done("/tmp/profiles-local.zz".into());
    // No auto-route — handle_passphrase Saved decides on key press.
    assert_eq!(app.screen, Screen::ProfilePassphrase);
    assert!(matches!(app.passphrase_stage, PassphraseStage::Saved(_)));
}

#[test]
fn unlock_enter_with_passphrase_sets_request() {
    let mut app = App::new();
    app.screen = Screen::ProfileUnlock;
    app.manage_passphrase_input.set_value("hunter2hunter2");
    press(&mut app, KeyCode::Enter);
    assert!(app.unlock_request);
    assert_eq!(app.manage_stage, ManageStage::Unlocking);
}

#[test]
fn unlock_enter_with_empty_passphrase_does_nothing() {
    let mut app = App::new();
    app.screen = Screen::ProfileUnlock;
    press(&mut app, KeyCode::Enter);
    assert!(!app.unlock_request);
}

#[test]
fn manage_r_toggles_secret_reveal() {
    let mut app = App::new();
    app.screen = Screen::ProfileManage;
    app.manage_stage = ManageStage::Viewing;
    // Need a non-None unlocked_profile for the handler path,
    // but the handler itself doesn't deref it here, so a
    // dummy is unnecessary — the field flips regardless.
    assert!(!app.manage_show_secret);
    press(&mut app, KeyCode::Char('r'));
    assert!(app.manage_show_secret);
    press(&mut app, KeyCode::Char('r'));
    assert!(!app.manage_show_secret);
}

#[test]
fn manage_w_enters_wipe_confirm_then_y_dispatches_request() {
    let mut app = App::new();
    app.screen = Screen::ProfileManage;
    app.manage_stage = ManageStage::Viewing;
    press(&mut app, KeyCode::Char('w'));
    assert_eq!(app.manage_stage, ManageStage::WipeConfirm);
    press(&mut app, KeyCode::Char('y'));
    assert!(app.wipe_request);
    assert_eq!(app.manage_stage, ManageStage::Wiping);
}

#[test]
fn manage_w_then_n_cancels_back_to_viewing() {
    let mut app = App::new();
    app.screen = Screen::ProfileManage;
    app.manage_stage = ManageStage::Viewing;
    press(&mut app, KeyCode::Char('w'));
    press(&mut app, KeyCode::Char('n'));
    assert_eq!(app.manage_stage, ManageStage::Viewing);
    assert!(!app.wipe_request);
}

#[test]
fn manage_p_routes_to_account_for_re_push() {
    let mut app = App::new();
    app.screen = Screen::ProfileManage;
    app.manage_stage = ManageStage::Viewing;
    press(&mut app, KeyCode::Char('p'));
    assert_eq!(app.screen, Screen::Account);
    assert_eq!(app.push_flow.stage, PushStage::AccountForm);
}

#[test]
fn manage_t_routes_to_test_upload_with_back_pointer() {
    let mut app = App::new();
    app.screen = Screen::ProfileManage;
    app.manage_stage = ManageStage::Viewing;
    press(&mut app, KeyCode::Char('t'));
    assert_eq!(app.screen, Screen::TestUpload);
    assert_eq!(app.test_upload_back, Some(Screen::ProfileManage));
}

#[test]
fn re_test_enter_on_ok_returns_to_manage_not_passphrase() {
    // From ProfileManage, the operator presses `t` → TestUpload.
    // After a successful probe, Enter must return to ProfileManage,
    // *not* advance to the wizard's ProfilePassphrase step.
    let mut app = App::new();
    app.screen = Screen::TestUpload;
    app.test_upload_back = Some(Screen::ProfileManage);
    app.state.last_test_outcome = Some(TestOutcome::Passed);
    press(&mut app, KeyCode::Enter);
    assert_eq!(app.screen, Screen::ProfileManage);
    // Back pointer is consumed so re-entering via the wizard is
    // not affected.
    assert_eq!(app.test_upload_back, None);
}

#[test]
fn wizard_test_enter_on_ok_still_advances_to_passphrase() {
    // The legacy wizard path is preserved: with no back pointer,
    // Enter on a successful probe advances to ProfilePassphrase.
    let mut app = App::new();
    app.screen = Screen::TestUpload;
    app.test_upload_back = None;
    app.state.last_test_outcome = Some(TestOutcome::Passed);
    press(&mut app, KeyCode::Enter);
    assert_eq!(app.screen, Screen::ProfilePassphrase);
}

#[test]
fn add_inner_profile_test_enter_routes_to_inner_alias_not_passphrase() {
    // The add-inner-profile sub-flow must skip ProfilePassphrase
    // (the container's KEK is cached) and land on InnerAlias.
    // Hitting ProfilePassphrase here would let `save_request`
    // fire — which writes a fresh single-profile container,
    // overwriting the existing inner profiles.
    let mut app = App::new();
    app.wizard_mode = WizardMode::AddInnerProfile;
    app.screen = Screen::TestUpload;
    app.test_upload_back = None;
    app.state.last_test_outcome = Some(TestOutcome::Passed);
    press(&mut app, KeyCode::Enter);
    assert_eq!(app.screen, Screen::InnerAlias);
    assert!(!app.save_request, "AddInnerProfile must not arm save_request");
}

#[test]
fn open_local_after_cache_hit_routes_to_picker_not_manage() {
    // Cache hit (same source, container in RAM) must land on the
    // picker so the operator can choose any inner profile, not
    // jump straight back to the previously-active one.
    let mut app = App::new();
    app.local_exists = true;
    app.unlock_source = ProfileSource::Local;
    app.cached_source = Some(ProfileSource::Local);
    app.unlocked_set = Some(ProfileSet::with_profile(dummy_profile()));
    app.unlocked_profile = Some(dummy_profile());
    app.welcome_item = WelcomeItem::OpenLocal;
    press(&mut app, KeyCode::Enter);
    assert_eq!(app.screen, Screen::ContainerPicker);
    // Picker takes over the active selection — the "stuck on
    // last alias" behavior is gone.
    assert!(app.unlocked_profile.is_none());
}

#[test]
fn apply_inner_added_routes_to_done_in_add_inner_mode() {
    // After the alias is committed, the operator must land on
    // a "connection added" Done screen (not jump straight to
    // ProfileManage). This gives the wizard stepper a final
    // tick and a clear confirmation step before Welcome.
    let mut app = App::new();
    app.wizard_mode = WizardMode::AddInnerProfile;
    app.unlock_source = ProfileSource::Local;
    let mut set = ProfileSet::new();
    set.profiles.push({
        let mut p = dummy_profile();
        p.alias = "fresh".into();
        p
    });
    app.apply_inner_added(set, "fresh".into());
    assert_eq!(app.screen, Screen::Done);
    assert_eq!(app.wizard_mode, WizardMode::AddInnerProfile);
    assert_eq!(app.unlocked_profile.as_ref().map(|p| p.alias.as_str()), Some("fresh"));
    // Enter on Done returns to Welcome and resets the sticky
    // sub-flow mode.
    press(&mut app, KeyCode::Enter);
    assert_eq!(app.screen, Screen::Welcome);
    assert_eq!(app.wizard_mode, WizardMode::CreateLocal);
}

#[test]
fn manage_d_uppercase_arms_delete_confirm_when_n_above_one() {
    // From ProfileManage with an active inner profile and at
    // least one sibling, `D` (uppercase only) routes into the
    // confirm sub-state. Lowercase `d` is reserved for the
    // wizard "download" line in the future and must NOT trigger.
    let mut app = App::new();
    app.screen = Screen::ProfileManage;
    app.manage_stage = ManageStage::Viewing;
    app.unlock_source = ProfileSource::Local;
    app.unlocked_kek = Some(ProfileKek::from_parts(vec![0u8; 32], vec![0u8; 16]));
    let mut set = ProfileSet::new();
    let mut a = dummy_profile();
    a.alias = "alpha".into();
    let mut b = dummy_profile();
    b.alias = "beta".into();
    b.profile_id = "p-beta".into();
    set.profiles.push(a);
    set.profiles.push(b);
    app.unlocked_set = Some(set);
    app.unlocked_profile = Some(dummy_profile());
    // Lowercase `d` does nothing.
    press(&mut app, KeyCode::Char('d'));
    assert_eq!(app.manage_stage, ManageStage::Viewing);
    // Uppercase `D` arms confirm.
    press(&mut app, KeyCode::Char('D'));
    assert_eq!(app.manage_stage, ManageStage::DeleteInnerConfirm);
    // `n` cancels.
    press(&mut app, KeyCode::Char('n'));
    assert_eq!(app.manage_stage, ManageStage::Viewing);
    // `D` again, then `y` arms the request flag.
    press(&mut app, KeyCode::Char('D'));
    press(&mut app, KeyCode::Char('y'));
    assert_eq!(app.manage_stage, ManageStage::DeletingInner);
    assert!(app.delete_inner_request);
}

#[test]
fn manage_d_with_only_one_inner_profile_refuses_with_error() {
    // The container would end up empty — the TUI refuses and
    // surfaces an inline error pointing at `w` (wipe everything).
    let mut app = App::new();
    app.screen = Screen::ProfileManage;
    app.manage_stage = ManageStage::Viewing;
    app.unlock_source = ProfileSource::Local;
    app.unlocked_kek = Some(ProfileKek::from_parts(vec![0u8; 32], vec![0u8; 16]));
    let mut set = ProfileSet::new();
    set.profiles.push(dummy_profile());
    app.unlocked_set = Some(set);
    app.unlocked_profile = Some(dummy_profile());
    press(&mut app, KeyCode::Char('D'));
    assert_eq!(app.manage_stage, ManageStage::Viewing);
    assert!(app.manage_unlock_error.is_some());
    let msg = app.manage_unlock_error.unwrap();
    assert!(msg.contains("last profile"));
    assert!(!app.delete_inner_request);
}

#[test]
fn apply_inner_deleted_routes_to_picker_and_clears_default_when_match() {
    // After a delete succeeds the operator lands on the picker
    // (so they can choose what to manage next) and the cached
    // default-alias is cleared if it pointed at the just-deleted
    // alias.
    let mut app = App::new();
    let mut set = ProfileSet::new();
    let mut a = dummy_profile();
    a.alias = "alpha".into();
    set.profiles.push(a);
    app.unlocked_set = Some(ProfileSet::new()); // pre-state, will be replaced
    app.unlocked_profile = Some(dummy_profile());
    app.picker_default_alias = Some("beta".into());
    app.apply_inner_deleted(set, "beta".into());
    assert_eq!(app.screen, Screen::ContainerPicker);
    assert!(app.unlocked_profile.is_none());
    assert!(app.picker_default_alias.is_none());
    assert_eq!(app.unlocked_set.as_ref().unwrap().profiles.len(), 1);
}

#[test]
fn agent_pill_in_add_inner_profile_drops_typed_username() {
    // During the AddInnerProfile wizard the operator is typing a
    // brand-new profile's fields. The pill must NOT echo
    // `state.username` — that leaked through the post-save fall-
    // back and made the pill flicker as the user typed.
    let mut app = App::new();
    app.wizard_mode = WizardMode::AddInnerProfile;
    app.unlock_source = ProfileSource::Local;
    app.unlocked_set = Some(ProfileSet::with_profile(dummy_profile()));
    // Stale post-save state from a previous flow in this session.
    app.saved_path = Some("/tmp/profiles-local.zz".into());
    app.state.username = "gibbio".into();
    assert_eq!(
        app.agent_pill(),
        AgentPill::Local {
            alias: String::new()
        }
    );
}

#[test]
fn welcome_configure_with_local_existing_routes_to_unlock_in_add_mode() {
    let mut app = App::new();
    app.local_exists = true;
    app.welcome_item = WelcomeItem::Configure;
    press(&mut app, KeyCode::Enter);
    // With local_exists=true, "Configure" must mean "add a new
    // inner profile to the existing container", NOT "create a
    // brand-new local container".
    assert_eq!(app.wizard_mode, WizardMode::AddInnerProfile);
    assert_eq!(app.screen, Screen::ProfileUnlock);
    assert_eq!(app.unlock_source, ProfileSource::Local);
}

#[test]
fn welcome_add_to_local_then_unlock_preserves_existing_profiles_in_set() {
    let mut existing = ProfileSet::new();
    existing.profiles.push(dummy_profile());
    let mut other = dummy_profile();
    other.alias = "other".into();
    other.profile_id = "other".into();
    existing.profiles.push(other);
    let kek = ProfileKek::from_parts(vec![7u8; 32], vec![9u8; 16]);

    // 1. Welcome with local_exists=true and Configure focused →
    //    wizard_mode flips to AddInnerProfile and we land on
    //    ProfileUnlock without touching unlocked_set yet.
    let mut app = App::new();
    app.local_exists = true;
    app.welcome_item = WelcomeItem::Configure;
    press(&mut app, KeyCode::Enter);
    assert_eq!(app.wizard_mode, WizardMode::AddInnerProfile);
    assert_eq!(app.screen, Screen::ProfileUnlock);
    assert!(app.unlocked_set.is_none());

    // 2. Successful unlock with a 2-profile set: the AddInnerProfile
    //    branch in `apply_unlock_set_done` must store the set
    //    + KEK and route to Provider, *without* dropping any
    //    existing profile.
    app.apply_unlock_set_done(existing.clone(), kek, Some("test".into()));
    assert_eq!(app.wizard_mode, WizardMode::AddInnerProfile);
    assert_eq!(app.screen, Screen::Provider);
    assert!(app.unlocked_kek.is_some());
    let stored = app.unlocked_set.as_ref().expect("set stored after unlock");
    assert_eq!(stored.profiles.len(), 2);

    // 3. Walk the wizard end-to-end with stub state. The
    //    AddInnerProfile branch in TestUpload's Enter handler
    //    must route to InnerAlias (the alias prompt), never to
    //    ProfilePassphrase (which would arm save_request and
    //    overwrite the container with a single-profile set).
    app.state.server_url = "https://example.org".into();
    app.state.username = "alice".into();
    app.state.auth_secret = "x".into();
    app.state.remote_folder = "/zz-drop".into();
    app.screen = Screen::TestUpload;
    app.state.last_test_outcome = Some(TestOutcome::Passed);
    press(&mut app, KeyCode::Enter);
    assert_eq!(app.screen, Screen::InnerAlias);
    assert!(!app.save_request);

    // 4. After typing an alias and pressing Enter on InnerAlias,
    //    only `add_inner_request` is armed — the container writer
    //    in main.rs reads `unlocked_set` (still 2 profiles) and
    //    appends a third before re-encrypting.
    app.inner_alias_input = TextInput::new();
    app.inner_alias_input.set_value("fresh");
    press(&mut app, KeyCode::Enter);
    assert!(app.add_inner_request);
    assert!(!app.save_request);
    let still = app
        .unlocked_set
        .as_ref()
        .expect("set survives until main.rs re-encrypts");
    assert_eq!(
        still.profiles.len(),
        2,
        "main.rs must clone this 2-profile set and append the new one"
    );
}

#[test]
fn apply_wipe_done_clears_state_and_returns_to_welcome() {
    let mut app = App::new();
    app.local_exists = true;
    app.remote_exists = true;
    app.saved_path = Some("/tmp/profiles-local.zz".into());
    app.apply_wipe_done();
    assert!(!app.profile_exists());
    assert!(app.saved_path.is_none());
    assert_eq!(app.screen, Screen::Welcome);
    assert_eq!(app.welcome_item, WelcomeItem::Configure);
}

#[test]
fn provider_to_server_via_enter() {
    let mut app = App::new();
    app.screen = Screen::Provider;
    press(&mut app, KeyCode::Enter);
    assert_eq!(app.screen, Screen::NextcloudServer);
}

#[test]
fn provider_picker_arrow_down_then_enter_goes_to_gdrive_setup() {
    let mut app = App::new();
    app.screen = Screen::Provider;
    assert_eq!(app.state.provider_kind, ProviderKind::Nextcloud);

    press(&mut app, KeyCode::Down);
    assert_eq!(app.state.provider_kind, ProviderKind::GoogleDrive);

    press(&mut app, KeyCode::Enter);
    assert_eq!(app.screen, Screen::SetupGoogleDrive);
    assert!(
        app.gdrive_request_init,
        "entering SetupGoogleDrive should arm the device-flow init trigger"
    );
}

#[test]
fn provider_picker_arrow_up_returns_to_nextcloud() {
    let mut app = App::new();
    app.screen = Screen::Provider;
    press(&mut app, KeyCode::Down);
    assert_eq!(app.state.provider_kind, ProviderKind::GoogleDrive);
    press(&mut app, KeyCode::Up);
    assert_eq!(app.state.provider_kind, ProviderKind::Nextcloud);
    press(&mut app, KeyCode::Enter);
    assert_eq!(app.screen, Screen::NextcloudServer);
}

#[test]
fn gdrive_setup_esc_returns_to_provider_and_clears_init_flag() {
    let mut app = App::new();
    app.screen = Screen::Provider;
    app.state.provider_kind = ProviderKind::GoogleDrive;
    press(&mut app, KeyCode::Enter);
    assert!(app.gdrive_request_init);

    press(&mut app, KeyCode::Esc);
    assert_eq!(app.screen, Screen::Provider);
    assert!(!app.gdrive_request_init);
}

#[test]
fn apply_gdrive_init_moves_to_polling_with_populated_state() {
    let mut app = App::new();
    app.screen = Screen::SetupGoogleDrive;
    app.apply_gdrive_init(
        "ABCD-EFGH".into(),
        "https://www.google.com/device".into(),
        Some("https://www.google.com/device?user_code=ABCD-EFGH".into()),
        "DEVCODE".into(),
        1800,
        5,
    );
    assert!(matches!(
        app.gdrive_setup.stage,
        GoogleDriveSetupStage::Polling
    ));
    assert_eq!(app.gdrive_setup.user_code, "ABCD-EFGH");
    assert_eq!(app.gdrive_setup.interval_secs, 5);
    assert!(app.gdrive_setup.expires_at > 0);
}

#[test]
fn apply_gdrive_tokens_arms_email_request_and_moves_to_fetching() {
    let mut app = App::new();
    app.gdrive_setup.stage = GoogleDriveSetupStage::Polling;
    app.apply_gdrive_tokens(
        "AT".into(),
        Some("RT".into()),
        "Bearer".into(),
        3600,
        Some("https://www.googleapis.com/auth/drive.file".into()),
    );
    assert!(matches!(
        app.gdrive_setup.stage,
        GoogleDriveSetupStage::Fetching
    ));
    assert!(app.gdrive_request_email);
    assert_eq!(app.gdrive_setup.access_token, "AT");
    assert_eq!(app.gdrive_setup.refresh_token, "RT");
    assert!(app.gdrive_setup.access_expires_at > 0);
}

#[test]
fn apply_gdrive_email_finalises_done_state() {
    let mut app = App::new();
    app.gdrive_setup.stage = GoogleDriveSetupStage::Fetching;
    app.apply_gdrive_email("alice@example.com".into());
    assert!(matches!(
        app.gdrive_setup.stage,
        GoogleDriveSetupStage::Done
    ));
    assert_eq!(app.gdrive_setup.user_email, "alice@example.com");
}

#[test]
fn apply_gdrive_failed_clears_pending_triggers() {
    let mut app = App::new();
    app.gdrive_setup.stage = GoogleDriveSetupStage::Polling;
    app.gdrive_request_init = true;
    app.gdrive_request_email = true;
    app.apply_gdrive_failed("device code expired".into());
    assert!(matches!(
        app.gdrive_setup.stage,
        GoogleDriveSetupStage::Failed(_)
    ));
    assert!(!app.gdrive_request_init);
    assert!(!app.gdrive_request_email);
}

#[test]
fn bump_gdrive_interval_adds_five_seconds() {
    let mut app = App::new();
    app.gdrive_setup.interval_secs = 5;
    app.bump_gdrive_interval();
    assert_eq!(app.gdrive_setup.interval_secs, 10);
    app.bump_gdrive_interval();
    assert_eq!(app.gdrive_setup.interval_secs, 15);
}

#[test]
fn gdrive_setup_r_on_failed_rearms_init() {
    let mut app = App::new();
    app.screen = Screen::SetupGoogleDrive;
    app.gdrive_setup.stage = GoogleDriveSetupStage::Failed("expired".into());
    press(&mut app, KeyCode::Char('r'));
    assert!(app.gdrive_request_init);
    assert!(matches!(
        app.gdrive_setup.stage,
        GoogleDriveSetupStage::Initiating
    ));
}

#[test]
fn gdrive_setup_q_toggles_qr_only_when_polling() {
    let mut app = App::new();
    app.screen = Screen::SetupGoogleDrive;
    app.gdrive_setup.stage = GoogleDriveSetupStage::Initiating;
    let before = app.gdrive_setup.show_qr;
    press(&mut app, KeyCode::Char('q'));
    assert_eq!(app.gdrive_setup.show_qr, before, "q must be a no-op outside Polling");

    app.gdrive_setup.stage = GoogleDriveSetupStage::Polling;
    press(&mut app, KeyCode::Char('q'));
    assert_ne!(app.gdrive_setup.show_qr, before);
}

#[test]
fn gdrive_setup_enter_on_done_advances_to_collision() {
    let mut app = App::new();
    app.screen = Screen::SetupGoogleDrive;
    app.gdrive_setup.stage = GoogleDriveSetupStage::Done;
    press(&mut app, KeyCode::Enter);
    assert_eq!(app.screen, Screen::Collision);
}

#[test]
fn apply_unlock_done_hydrates_gdrive_provider_from_profile() {
    let gd = OAuthConnection {
        root_folder: "zz-drop".into(),
        root_folder_id: Some("FOLDER_ID".into()),
        user_email: "alice@example.com".into(),
        access_token: "AT".into(),
        refresh_token: "RT".into(),
        token_type: "Bearer".into(),
        expires_at: 1_700_000_000,
        scope: "https://www.googleapis.com/auth/drive.file".into(),
    };
    let profile = PlainProfile {
        profile_version: 1,
        profile_id: "p".into(),
        alias: "alice".into(),
        default_target: "google_drive".into(),
        providers: vec![ProviderProfile::GoogleDrive(gd)],
        collision_policy: CollisionPolicy::Rename,
        settings_from: None,
        created_at: "epoch:0".into(),
        updated_at: "epoch:0".into(),
    };

    let mut app = App::new();
    app.apply_unlock_done(profile);

    assert_eq!(app.state.provider_kind, ProviderKind::GoogleDrive);
    assert_eq!(app.gdrive_setup.user_email, "alice@example.com");
    assert_eq!(app.gdrive_setup.root_folder, "zz-drop");
    assert_eq!(app.gdrive_setup.access_token, "AT");
    assert_eq!(app.gdrive_setup.refresh_token, "RT");
    assert!(matches!(
        app.gdrive_setup.stage,
        GoogleDriveSetupStage::Done
    ));
    assert_eq!(app.screen, Screen::ProfileManage);
}

#[test]
fn gdrive_setup_url_modal_eats_keys_and_esc_closes() {
    let mut app = App::new();
    app.screen = Screen::SetupGoogleDrive;
    app.gdrive_setup.stage = GoogleDriveSetupStage::Polling;
    app.gdrive_setup.show_url_modal = true;

    // Random key while modal is open — should NOT close it or
    // navigate; only `esc` does.
    press(&mut app, KeyCode::Char('c'));
    assert!(app.gdrive_setup.show_url_modal);

    press(&mut app, KeyCode::Esc);
    assert!(!app.gdrive_setup.show_url_modal);
    // The screen stays put; closing the modal is not "back".
    assert_eq!(app.screen, Screen::SetupGoogleDrive);
}

#[test]
fn server_screen_starts_with_https_prefix() {
    let app = App::new();
    assert_eq!(app.server_input.value(), "https://");
}

#[test]
fn server_screen_typed_chars_accumulate_in_state() {
    let mut app = App::new();
    app.screen = Screen::NextcloudServer;
    for c in "nc".chars() {
        press(&mut app, KeyCode::Char(c));
    }
    // The default `https://` prefix is preserved.
    assert_eq!(app.state.server_url, "https://nc");
}

#[test]
fn server_screen_q_is_typed_not_quit() {
    let mut app = App::new();
    app.screen = Screen::NextcloudServer;
    press(&mut app, KeyCode::Char('q'));
    assert!(!app.should_quit);
    assert_eq!(app.state.server_url, "https://q");
}

#[test]
fn server_screen_question_mark_is_ignored() {
    let mut app = App::new();
    app.screen = Screen::NextcloudServer;
    let before = app.server_input.value().to_string();
    press(&mut app, KeyCode::Char('?'));
    assert_eq!(app.server_input.value(), before);
}

#[test]
fn server_enter_advances_only_when_valid() {
    let mut app = App::new();
    app.screen = Screen::NextcloudServer;
    press(&mut app, KeyCode::Enter);
    assert_eq!(app.screen, Screen::NextcloudServer);

    for c in "nc.example.org".chars() {
        press(&mut app, KeyCode::Char(c));
    }
    press(&mut app, KeyCode::Enter);
    assert_eq!(app.screen, Screen::NextcloudAuth);
}

#[test]
fn auth_tab_cycles_focus() {
    let mut app = App::new();
    app.screen = Screen::NextcloudAuth;
    assert_eq!(app.auth_focus, AuthFocus::KindSelector);
    press(&mut app, KeyCode::Tab);
    assert_eq!(app.auth_focus, AuthFocus::Username);
    press(&mut app, KeyCode::Tab);
    assert_eq!(app.auth_focus, AuthFocus::Secret);
    press(&mut app, KeyCode::Tab);
    assert_eq!(app.auth_focus, AuthFocus::KindSelector);
}

#[test]
fn auth_secret_chars_kept_in_state() {
    let mut app = App::new();
    app.screen = Screen::NextcloudAuth;
    app.auth_focus = AuthFocus::Secret;
    for c in "topsecret".chars() {
        press(&mut app, KeyCode::Char(c));
    }
    assert_eq!(app.state.auth_secret, "topsecret");
}

#[test]
fn auth_login_flow_blocks_advance() {
    let mut app = App::new();
    app.screen = Screen::NextcloudAuth;
    app.state.auth_kind = AuthKind::LoginFlow;
    app.username_input.set_value("user");
    app.secret_input.set_value("xxx");
    app.commit_auth();
    press(&mut app, KeyCode::Enter);
    assert_eq!(app.screen, Screen::NextcloudAuth);
}

#[test]
fn auth_app_password_advances_when_complete() {
    let mut app = App::new();
    app.screen = Screen::NextcloudAuth;
    app.state.auth_kind = AuthKind::AppPassword;
    app.username_input.set_value("user");
    app.secret_input.set_value("xxx");
    app.commit_auth();
    press(&mut app, KeyCode::Enter);
    assert_eq!(app.screen, Screen::RemoteFolder);
}

#[test]
fn collision_arrows_cycle_choice() {
    let mut app = App::new();
    app.screen = Screen::Collision;
    assert_eq!(app.collision, CollisionChoice::Rename);
    press(&mut app, KeyCode::Down);
    assert_eq!(app.collision, CollisionChoice::Overwrite);
    press(&mut app, KeyCode::Down);
    assert_eq!(app.collision, CollisionChoice::Fail);
    press(&mut app, KeyCode::Up);
    assert_eq!(app.collision, CollisionChoice::Overwrite);
}

#[test]
fn collision_enter_writes_state_and_advances() {
    let mut app = App::new();
    app.screen = Screen::Collision;
    app.collision = CollisionChoice::Overwrite;
    press(&mut app, KeyCode::Enter);
    assert_eq!(
        app.state.collision,
        CollisionPolicy::Overwrite
    );
    assert_eq!(app.screen, Screen::TestUpload);
}

#[test]
fn test_upload_enter_when_idle_runs_probe() {
    let mut app = App::new();
    app.screen = Screen::TestUpload;
    press(&mut app, KeyCode::Enter);
    assert!(app.test_request);
    assert_eq!(app.screen, Screen::TestUpload);
}

#[test]
fn test_upload_enter_after_ok_advances_to_passphrase() {
    let mut app = App::new();
    app.screen = Screen::TestUpload;
    app.state.last_test_outcome = Some(TestOutcome::Passed);
    press(&mut app, KeyCode::Enter);
    assert_eq!(app.screen, Screen::ProfilePassphrase);
    assert!(!app.test_request);
}

#[test]
fn test_upload_enter_after_failed_retries() {
    let mut app = App::new();
    app.screen = Screen::TestUpload;
    app.state.last_test_outcome = Some(TestOutcome::Failed("oops".into()));
    press(&mut app, KeyCode::Enter);
    assert!(app.test_request);
    assert_eq!(app.screen, Screen::TestUpload);
}

#[test]
fn test_upload_records_outcome() {
    let mut app = App::new();
    app.test_running = true;
    app.record_test_outcome(TestOutcome::Passed);
    assert_eq!(app.state.last_test_outcome, Some(TestOutcome::Passed));
    assert!(!app.test_running);
}

#[test]
fn probe_per_step_transitions_busy_then_ok() {
    let mut app = App::new();
    app.test_running = true;
    app.start_probe();
    assert_eq!(app.state.probe_progress.ensure, ProbeStepStatus::Busy);
    assert_eq!(app.state.probe_progress.marker, ProbeStepStatus::Pending);
    assert_eq!(app.state.probe_progress.upload, ProbeStepStatus::Pending);
    assert_eq!(app.state.probe_progress.cleanup, ProbeStepStatus::Pending);

    app.mark_probe_ensure_ok();
    assert_eq!(app.state.probe_progress.ensure, ProbeStepStatus::Done);
    assert_eq!(app.state.probe_progress.marker, ProbeStepStatus::Busy);
    assert!(app.test_running);

    app.mark_probe_marker_ok();
    assert_eq!(app.state.probe_progress.marker, ProbeStepStatus::Done);
    assert_eq!(app.state.probe_progress.upload, ProbeStepStatus::Busy);
    assert!(app.test_running);

    app.mark_probe_upload_ok();
    assert_eq!(app.state.probe_progress.upload, ProbeStepStatus::Done);
    assert_eq!(app.state.probe_progress.cleanup, ProbeStepStatus::Busy);
    // Probe still running until cleanup resolves.
    assert!(app.test_running);

    app.mark_probe_cleanup_ok();
    assert_eq!(app.state.probe_progress.cleanup, ProbeStepStatus::Done);
    assert_eq!(app.state.last_test_outcome, Some(TestOutcome::Passed));
    assert!(!app.test_running);
}

#[test]
fn probe_ensure_failure_stops_progress() {
    let mut app = App::new();
    app.test_running = true;
    app.start_probe();
    app.fail_probe_ensure("ensure folder: 401 unauthorized".into());
    assert_eq!(app.state.probe_progress.ensure, ProbeStepStatus::Failed);
    // All downstream stages are skipped.
    assert_eq!(app.state.probe_progress.marker, ProbeStepStatus::Skip);
    assert_eq!(app.state.probe_progress.upload, ProbeStepStatus::Skip);
    assert_eq!(app.state.probe_progress.cleanup, ProbeStepStatus::Skip);
    assert!(matches!(
        app.state.last_test_outcome,
        Some(TestOutcome::Failed(_))
    ));
    assert!(!app.test_running);
}

#[test]
fn probe_marker_failure_skips_upload_and_cleanup() {
    let mut app = App::new();
    app.test_running = true;
    app.start_probe();
    app.mark_probe_ensure_ok();
    app.fail_probe_marker("marker: write failed".into());
    assert_eq!(app.state.probe_progress.marker, ProbeStepStatus::Failed);
    assert_eq!(app.state.probe_progress.upload, ProbeStepStatus::Skip);
    assert_eq!(app.state.probe_progress.cleanup, ProbeStepStatus::Skip);
    assert!(!app.test_running);
}

#[test]
fn probe_upload_failure_skips_cleanup() {
    let mut app = App::new();
    app.test_running = true;
    app.start_probe();
    app.mark_probe_ensure_ok();
    app.mark_probe_marker_ok();
    app.fail_probe_upload("upload: 500 server error".into());
    assert_eq!(app.state.probe_progress.upload, ProbeStepStatus::Failed);
    assert_eq!(app.state.probe_progress.cleanup, ProbeStepStatus::Skip);
    assert!(!app.test_running);
}

// ── push to zz-drop.net (TASK 20 Phase 2) ──────────────────

#[test]
fn done_q_quits() {
    let mut app = App::new();
    app.screen = Screen::Done;
    app.saved_path = Some("/tmp/profile.zz".into());
    press(&mut app, KeyCode::Char('q'));
    assert!(app.should_quit);
}

#[test]
fn done_p_is_no_longer_a_shortcut() {
    // The push sub-flow used to be opt-in via `p` from Done. Now
    // it is part of the wizard automatically (after passphrase
    // save). `p` on Done is a no-op so the wording can stop
    // promising a shortcut that doesn't exist.
    let mut app = App::new();
    app.screen = Screen::Done;
    app.saved_path = Some("/tmp/profile.zz".into());
    press(&mut app, KeyCode::Char('p'));
    assert_eq!(app.screen, Screen::Done);
    assert!(!app.should_quit);
}

#[test]
fn passphrase_saved_enter_skips_push_and_lands_on_done() {
    // Push is optional after a Configure save: Enter on the
    // "saved" stage skips the push and lands on Done with the
    // local-only warning.
    let mut app = App::new();
    app.screen = Screen::ProfilePassphrase;
    app.passphrase_stage =
        PassphraseStage::Saved("/home/alice/.config/zz-drop/profiles-local.zz".into());
    press(&mut app, KeyCode::Enter);
    assert_eq!(app.screen, Screen::Done);
    assert!(app.pushed_summary.is_none());
}

#[test]
fn passphrase_saved_p_enters_push_flow() {
    // The operator who *does* want recovery presses `p` —
    // routes into the existing push sub-flow.
    let mut app = App::new();
    app.screen = Screen::ProfilePassphrase;
    app.passphrase_stage =
        PassphraseStage::Saved("/home/alice/.config/zz-drop/profiles-local.zz".into());
    press(&mut app, KeyCode::Char('p'));
    assert_eq!(app.screen, Screen::Account);
    assert_eq!(app.push_flow.stage, PushStage::AccountForm);
    assert_eq!(app.push_flow.mode, PushFlowMode::Push);
    assert!(app.push_back.is_none());
}

#[test]
fn account_esc_in_wizard_mode_is_noop() {
    // Wizard auto-push: `push_back` is None, so Esc must not
    // bail out — only success or Ctrl-C exit.
    let mut app = App::new();
    app.screen = Screen::Account;
    app.push_back = None;
    press(&mut app, KeyCode::Esc);
    assert_eq!(app.screen, Screen::Account);
}

#[test]
fn account_esc_in_repush_mode_returns_to_back_pointer() {
    // `p · re-push` from ProfileManage sets `push_back =
    // Some(ProfileManage)`. Esc on Account must consume the
    // back-pointer and return there. Useful when the API
    // server is unreachable and the operator wants to bail.
    let mut app = App::new();
    app.screen = Screen::Account;
    app.push_back = Some(Screen::ProfileManage);
    app.account_email_input.set_value("alice@example.org");
    press(&mut app, KeyCode::Esc);
    assert_eq!(app.screen, Screen::ProfileManage);
    assert_eq!(app.push_back, None);
    // Push state cleared so a re-entry starts fresh.
    assert_eq!(app.push_flow.stage, PushStage::AccountForm);
    assert_eq!(app.account_email_input.value(), "");
}

#[test]
fn push_profile_esc_in_repush_mode_returns_to_back_pointer() {
    let mut app = App::new();
    app.screen = Screen::PushProfile;
    app.push_back = Some(Screen::ProfileManage);
    app.apply_aliases_loaded(vec!["existing".into()]);
    press(&mut app, KeyCode::Esc);
    assert_eq!(app.screen, Screen::ProfileManage);
    assert_eq!(app.push_back, None);
}

#[test]
fn push_profile_esc_in_wizard_mode_is_noop() {
    let mut app = App::new();
    app.screen = Screen::PushProfile;
    app.push_back = None;
    app.apply_aliases_loaded(vec!["existing".into()]);
    press(&mut app, KeyCode::Esc);
    assert_eq!(app.screen, Screen::PushProfile);
}

#[test]
fn re_push_done_enter_returns_to_back_pointer_not_done() {
    // Re-push from ProfileManage: after success, Enter must
    // return to ProfileManage, *not* to the wizard's Done
    // screen. The wizard's auto-push case is covered by the
    // existing `push_done_returns_to_done_screen_on_enter` test.
    let mut app = App::new();
    app.screen = Screen::PushProfile;
    app.push_back = Some(Screen::ProfileManage);
    app.apply_push_done("asdasdasd".into(), 745, 7);
    press(&mut app, KeyCode::Enter);
    assert_eq!(app.screen, Screen::ProfileManage);
    assert_eq!(app.push_back, None);
    assert_eq!(app.push_flow.stage, PushStage::AccountForm);
}

#[test]
fn push_success_populates_pushed_summary_for_done_render() {
    let mut app = App::new();
    app.apply_push_done("casa-nc".into(), 4096, 3);
    {
        let s = app.pushed_summary.as_ref().expect("pushed_summary set");
        assert_eq!(s.alias, "casa-nc");
        assert_eq!(s.blob_size, 4096);
        assert_eq!(s.blob_version, 3);
    }
    // Survives a transition that would clear push_flow.
    app.push_flow = PushFlowState::default();
    assert!(app.pushed_summary.is_some());
}

#[test]
fn account_enter_with_complete_inputs_sets_login_request() {
    let mut app = App::new();
    app.screen = Screen::Account;
    app.account_email_input.set_value("alice@example.org");
    app.account_password_input.set_value("hunter2hunter2");
    press(&mut app, KeyCode::Enter);
    assert!(app.push_request_login);
    assert_eq!(app.push_flow.stage, PushStage::AccountSending);
}

#[test]
fn account_enter_with_invalid_email_surfaces_validation_hint() {
    let mut app = App::new();
    app.screen = Screen::Account;
    app.account_email_input.set_value("noatsign");
    app.account_password_input.set_value("hunter2hunter2");
    press(&mut app, KeyCode::Enter);
    assert!(!app.push_request_login);
    assert_eq!(
        app.account_validation_error,
        Some("enter a valid email address"),
    );
}

#[test]
fn account_enter_with_empty_password_surfaces_validation_hint() {
    let mut app = App::new();
    app.screen = Screen::Account;
    app.account_email_input.set_value("alice@example.org");
    app.account_password_input.set_value("");
    press(&mut app, KeyCode::Enter);
    assert!(!app.push_request_login);
    assert_eq!(app.account_validation_error, Some("enter your password"));
}

#[test]
fn account_validation_hint_clears_on_next_keystroke() {
    let mut app = App::new();
    app.screen = Screen::Account;
    app.account_email_input.set_value("noatsign");
    app.account_password_input.set_value("hunter2hunter2");
    press(&mut app, KeyCode::Enter);
    assert!(app.account_validation_error.is_some());
    // A character keystroke in the email field clears the hint.
    press(&mut app, KeyCode::Char('@'));
    assert!(app.account_validation_error.is_none());
}

#[test]
fn account_session_response_jumps_to_push_profile_and_lists() {
    let mut app = App::new();
    app.screen = Screen::Account;
    app.apply_login_session("session-token".into());
    assert_eq!(app.screen, Screen::PushProfile);
    assert_eq!(app.push_flow.stage, PushStage::PushFetching);
    assert!(app.push_request_list);
}

#[test]
fn account_totp_required_response_jumps_to_login_totp() {
    let mut app = App::new();
    app.screen = Screen::Account;
    app.apply_login_totp_required("opaque-challenge".into());
    assert_eq!(app.screen, Screen::LoginTotp);
    assert_eq!(app.push_flow.stage, PushStage::TotpForm);
}

#[test]
fn login_totp_enter_with_code_dispatches_verify() {
    let mut app = App::new();
    app.screen = Screen::LoginTotp;
    app.push_flow.login_challenge = Some("opaque".into());
    app.totp_code_input.set_value("123456");
    press(&mut app, KeyCode::Enter);
    assert!(app.push_request_totp);
    assert_eq!(app.push_flow.stage, PushStage::TotpSending);
}

#[test]
fn push_profile_picker_arrow_keys_walk_aliases() {
    let mut app = App::new();
    app.screen = Screen::PushProfile;
    app.apply_aliases_loaded(vec!["a".into(), "b".into(), "c".into()]);
    assert_eq!(app.push_flow.picker_index, Some(0));
    press(&mut app, KeyCode::Down);
    assert_eq!(app.push_flow.picker_index, Some(1));
    press(&mut app, KeyCode::Down);
    assert_eq!(app.push_flow.picker_index, Some(2));
    // Stepping past the last alias goes to "type new" mode.
    press(&mut app, KeyCode::Down);
    assert_eq!(app.push_flow.picker_index, None);
}

#[test]
fn push_profile_enter_on_picker_dispatches_send() {
    let mut app = App::new();
    app.screen = Screen::PushProfile;
    app.apply_aliases_loaded(vec!["casa-nc".into()]);
    app.saved_path = Some("/tmp/profile.zz".into());
    press(&mut app, KeyCode::Enter);
    assert!(app.push_request_send);
    assert_eq!(app.push_flow.stage, PushStage::PushSending);
}

#[test]
fn push_done_returns_to_done_screen_on_enter() {
    let mut app = App::new();
    app.screen = Screen::PushProfile;
    app.apply_push_done("casa-nc".into(), 256, 1);
    assert_eq!(app.push_flow.stage, PushStage::Done);
    press(&mut app, KeyCode::Enter);
    assert_eq!(app.screen, Screen::Done);
    // Push state is cleared so a re-push starts clean.
    assert_eq!(app.push_flow.stage, PushStage::AccountForm);
}

#[test]
fn push_failed_state_carries_reason() {
    let mut app = App::new();
    app.apply_push_failed("blob too large".into());
    assert!(matches!(
        app.push_flow.stage,
        PushStage::Failed(ref s) if s == "blob too large"
    ));
}

#[test]
fn push_flow_debug_does_not_leak_token_or_challenge() {
    let mut app = App::new();
    app.push_flow.session_token = Some("super-secret-canary".into());
    app.push_flow.login_challenge = Some("challenge-canary".into());
    let d = app.push_flow.redacted_debug();
    assert!(!d.contains("super-secret-canary"));
    assert!(!d.contains("challenge-canary"));
}
