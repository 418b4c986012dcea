use zz_drop_tui::alias_gen::{suggest_alias_for, ProviderPrefix};
use zz_drop_tui::app::{App, ProfileSource};
use zz_drop_tui::keys::{KeyCode, KeyContext, KeyEvent, KeyModifiers};
use zz_drop_tui::profile::{
    CollisionPolicy, NextcloudAuthKind, NextcloudConnection, PlainProfile, ProfileKek, ProfileSet,
    ProviderProfile,
};
use zz_drop_tui::save::DefaultRoots;
use zz_drop_tui::screens::Screen;
use zz_drop_tui::wizard::{
    OneDriveSetupStage, PassphraseFocus, PassphraseStage, ProviderKind, TestOutcome, WelcomeItem,
    WizardMode,
};

fn key(code: KeyCode) -> KeyEvent {
    KeyEvent::new(code, KeyModifiers::Plain)
}

/// The verdicts the driver hands over with each key, computed here the
/// way the account, strength and alias checks judge the test inputs.
fn ctx_for(app: &App) -> KeyContext {
    let email = app.account_email_input.value();
    let email_plausible = match email.split_once('@') {
        Some((local, domain)) => !local.is_empty() && domain.contains('.'),
        None => false,
    };
    let alias = app.inner_alias_input.value().trim().to_string();
    let alias_valid = !alias.is_empty()
        && alias.chars().all(|c| c.is_ascii_alphanumeric() || c == '-' || c == '_');
    KeyContext {
        email_plausible,
        passphrase_weak: app.passphrase_input.value().chars().count() < 12,
        alias_valid,
        folder_encodable: true,
        seed: 0,
    }
}

fn press(app: &mut App, code: KeyCode) {
    let ctx = ctx_for(app);
    app.on_key(key(code), ctx);
}

fn type_into_passphrase(app: &mut App, s: &str) {
    for c in s.chars() {
        press(app, KeyCode::Char(c));
    }
}

fn populate_state_for_save(app: &mut App) {
    app.state.server_url = "https://nc.example.org".into();
    app.state.username = "alice".into();
    app.state.auth_secret = "app-pw".into();
    app.state.remote_folder = "/zz-drop".into();
    app.state.collision = CollisionPolicy::Rename;
}

fn nc_profile(alias: &str, username: &str) -> PlainProfile {
    PlainProfile {
        profile_version: 1,
        profile_id: format!("p-{alias}"),
        alias: alias.into(),
        default_target: "nextcloud".into(),
        providers: vec![ProviderProfile::Nextcloud(NextcloudConnection {
            server_url: "https://example.org".into(),
            username: username.into(),
            auth_kind: NextcloudAuthKind::AppPassword,
            secret: "x".into(),
            remote_root: "/zz-drop".into(),
        })],
        collision_policy: CollisionPolicy::Rename,
        settings_from: None,
        created_at: "epoch:0".into(),
        updated_at: "epoch:0".into(),
    }
}

fn roots() -> DefaultRoots {
    DefaultRoots {
        google_drive: "zz-drop".into(),
        onedrive: "zz-drop".into(),
        dropbox: "zz-drop".into(),
    }
}

#[test]
fn screen_starts_on_passphrase_focus() {
    let mut app = App::new();
    app.screen = Screen::ProfilePassphrase;
    assert_eq!(app.passphrase_focus, PassphraseFocus::Passphrase);
}

#[test]
fn typing_chars_accumulates_in_passphrase_input() {
    let mut app = App::new();
    app.screen = Screen::ProfilePassphrase;
    type_into_passphrase(&mut app, "hello");
    assert_eq!(app.passphrase_input.value(), "hello");
    assert_eq!(app.confirm_input.value(), "");
}

#[test]
fn tab_switches_focus_to_confirm_field() {
    let mut app = App::new();
    app.screen = Screen::ProfilePassphrase;
    press(&mut app, KeyCode::Tab);
    assert_eq!(app.passphrase_focus, PassphraseFocus::Confirm);
    type_into_passphrase(&mut app, "world");
    assert_eq!(app.confirm_input.value(), "world");
}

#[test]
fn enter_with_empty_passphrase_does_nothing() {
    let mut app = App::new();
    app.screen = Screen::ProfilePassphrase;
    press(&mut app, KeyCode::Enter);
    assert!(matches!(app.passphrase_stage, PassphraseStage::Editing));
    assert!(!app.save_request);
}

#[test]
fn enter_with_mismatch_does_not_advance() {
    let mut app = App::new();
    app.screen = Screen::ProfilePassphrase;
    app.passphrase_input.set_value("foo");
    app.confirm_input.set_value("bar");
    press(&mut app, KeyCode::Enter);
    assert!(matches!(app.passphrase_stage, PassphraseStage::Editing));
    assert!(!app.save_request);
}

#[test]
fn enter_with_weak_pass_triggers_warning() {
    let mut app = App::new();
    app.screen = Screen::ProfilePassphrase;
    populate_state_for_save(&mut app);
    app.passphrase_input.set_value("password");
    app.confirm_input.set_value("password");
    press(&mut app, KeyCode::Enter);
    assert!(matches!(app.passphrase_stage, PassphraseStage::WeakWarning));
    assert!(!app.save_request);
}

#[test]
fn weak_warning_y_triggers_save_request() {
    let mut app = App::new();
    app.screen = Screen::ProfilePassphrase;
    populate_state_for_save(&mut app);
    app.passphrase_input.set_value("password");
    app.confirm_input.set_value("password");
    press(&mut app, KeyCode::Enter);
    assert!(matches!(app.passphrase_stage, PassphraseStage::WeakWarning));
    press(&mut app, KeyCode::Char('y'));
    assert!(matches!(app.passphrase_stage, PassphraseStage::Encrypting));
    assert!(app.save_request);
}

#[test]
fn weak_warning_n_returns_to_editing() {
    let mut app = App::new();
    app.screen = Screen::ProfilePassphrase;
    populate_state_for_save(&mut app);
    app.passphrase_input.set_value("password");
    app.confirm_input.set_value("password");
    press(&mut app, KeyCode::Enter);
    press(&mut app, KeyCode::Char('n'));
    assert!(matches!(app.passphrase_stage, PassphraseStage::Editing));
    assert!(!app.save_request);
}

#[test]
fn enter_with_strong_long_pass_skips_warning_and_requests_save() {
    let mut app = App::new();
    app.screen = Screen::ProfilePassphrase;
    populate_state_for_save(&mut app);
    let strong = "correct horse battery staple jaguar 17";
    app.passphrase_input.set_value(strong);
    app.confirm_input.set_value(strong);
    press(&mut app, KeyCode::Enter);
    assert!(matches!(app.passphrase_stage, PassphraseStage::Encrypting));
    assert!(app.save_request);
}

#[test]
fn esc_during_editing_returns_to_test_upload() {
    let mut app = App::new();
    app.screen = Screen::ProfilePassphrase;
    press(&mut app, KeyCode::Esc);
    assert_eq!(app.screen, Screen::TestUpload);
}

#[test]
fn apply_save_done_sets_saved_state_and_path() {
    let mut app = App::new();
    app.screen = Screen::ProfilePassphrase;
    app.apply_save_done("/tmp/profile.zz".into());
    assert!(matches!(app.passphrase_stage, PassphraseStage::Saved(_)));
    assert_eq!(app.saved_path.as_deref(), Some("/tmp/profile.zz"));
}

#[test]
fn enter_after_saved_skips_push_and_lands_on_done() {
    // Push is optional. Enter on the Saved stage skips the push and
    // lands on Done — the Done screen renders the local-only warning.
    let mut app = App::new();
    app.screen = Screen::ProfilePassphrase;
    app.apply_save_done("/tmp/profile-local.zz".into());
    press(&mut app, KeyCode::Enter);
    assert_eq!(app.screen, Screen::Done);
    assert!(app.pushed_summary.is_none());
}

#[test]
fn p_after_saved_enters_push_flow() {
    let mut app = App::new();
    app.screen = Screen::ProfilePassphrase;
    app.apply_save_done("/tmp/profile-local.zz".into());
    press(&mut app, KeyCode::Char('p'));
    assert_eq!(app.screen, Screen::Account);
}

#[test]
fn done_screen_q_quits() {
    let mut app = App::new();
    app.screen = Screen::Done;
    press(&mut app, KeyCode::Char('q'));
    assert!(app.should_quit);
}

#[test]
fn done_screen_enter_returns_to_welcome_without_quitting() {
    let mut app = App::new();
    app.screen = Screen::Done;
    app.local_exists = true;
    app.remote_exists = false;
    app.saved_path = Some("/tmp/profile-local.zz".into());
    press(&mut app, KeyCode::Enter);
    assert!(!app.should_quit);
    assert_eq!(app.screen, Screen::Welcome);
    // Cursor lands on the just-saved profile slot.
    assert!(matches!(
        app.welcome_item,
        WelcomeItem::OpenLocal
    ));
}

#[test]
fn debug_does_not_leak_passphrase_input() {
    let mut app = App::new();
    app.passphrase_input.set_value("topsecret-canary");
    let dbg = app.state.debug_redacted_does_not_leak();
    assert!(!dbg.contains("topsecret-canary"));
}

#[test]
fn provider_picker_cycles_through_real_providers() {
    let mut app = App::new();
    app.screen = Screen::Provider;
    // Default after `App::new` is `Nextcloud`.
    assert_eq!(app.state.provider_kind, ProviderKind::Nextcloud);
    press(&mut app, KeyCode::Down);
    assert_eq!(app.state.provider_kind, ProviderKind::GoogleDrive);
    press(&mut app, KeyCode::Down);
    assert_eq!(app.state.provider_kind, ProviderKind::OneDrive);
    press(&mut app, KeyCode::Down);
    assert_eq!(app.state.provider_kind, ProviderKind::Dropbox);
    press(&mut app, KeyCode::Down);
    assert_eq!(app.state.provider_kind, ProviderKind::Nextcloud);
    // Up/k cycles in reverse.
    press(&mut app, KeyCode::Up);
    assert_eq!(app.state.provider_kind, ProviderKind::Dropbox);
}

#[test]
fn enter_on_onedrive_routes_to_setup_screen_and_arms_init() {
    let mut app = App::new();
    app.screen = Screen::Provider;
    app.state.provider_kind = ProviderKind::OneDrive;
    press(&mut app, KeyCode::Enter);
    assert_eq!(app.screen, Screen::SetupOneDrive);
    assert!(
        app.onedrive_request_init,
        "selecting OneDrive must arm the device-flow init flag"
    );
    // The state slot is reset so a previous attempt can't bleed
    // into the next try.
    assert_eq!(
        app.onedrive_setup.stage,
        OneDriveSetupStage::NotStarted
    );
}

#[test]
fn esc_on_setup_onedrive_returns_to_provider_and_clears_flags() {
    let mut app = App::new();
    app.screen = Screen::SetupOneDrive;
    app.onedrive_setup.stage = OneDriveSetupStage::Polling;
    app.onedrive_request_init = true;
    app.onedrive_request_email = true;
    press(&mut app, KeyCode::Esc);
    assert_eq!(app.screen, Screen::Provider);
    assert!(!app.onedrive_request_init);
    assert!(!app.onedrive_request_email);
    assert_eq!(
        app.onedrive_setup.stage,
        OneDriveSetupStage::NotStarted,
        "Esc must reset the setup state to default"
    );
}

#[test]
fn apply_onedrive_lifecycle_transitions_through_stages() {
    let mut app = App::new();
    // init: NotStarted → Polling, fields populated.
    app.apply_onedrive_init(
        "ABCD-EFGH".into(),
        "https://login.microsoft.com/device".into(),
        Some("https://login.microsoft.com/device?user_code=ABCD-EFGH".into()),
        "device-code-canary".into(),
        900,
        5,
    );
    assert_eq!(app.onedrive_setup.stage, OneDriveSetupStage::Polling);
    assert_eq!(app.onedrive_setup.user_code, "ABCD-EFGH");
    assert!(app.onedrive_setup.expires_at > 0);
    assert!(!app.onedrive_setup.device_code.is_empty());

    // tokens: Polling → Fetching, request_email armed.
    app.apply_onedrive_tokens(
        "access-token-canary".into(),
        Some("refresh-token-canary".into()),
        "Bearer".into(),
        3600,
        Some("Files.ReadWrite offline_access User.Read".into()),
    );
    assert_eq!(app.onedrive_setup.stage, OneDriveSetupStage::Fetching);
    assert!(app.onedrive_request_email);
    assert_eq!(app.onedrive_setup.access_token, "access-token-canary");
    assert_eq!(app.onedrive_setup.refresh_token, "refresh-token-canary");

    // email: Fetching → Done.
    app.apply_onedrive_email("alice@example.org".into());
    assert_eq!(app.onedrive_setup.stage, OneDriveSetupStage::Done);
    assert_eq!(app.onedrive_setup.user_email, "alice@example.org");
}

#[test]
fn enter_on_done_advances_to_collision() {
    let mut app = App::new();
    app.screen = Screen::SetupOneDrive;
    app.onedrive_setup.stage = OneDriveSetupStage::Done;
    press(&mut app, KeyCode::Enter);
    assert_eq!(app.screen, Screen::Collision);
}

#[test]
fn alias_suggestion_for_onedrive_uses_onedrive_prefix() {
    let suggestion = suggest_alias_for(
        ProviderPrefix::OneDrive,
    );
    assert!(
        suggestion.starts_with("onedrive-"),
        "expected onedrive- prefix, got {suggestion:?}"
    );
}

#[test]
fn first_setup_oauth_provider_routes_through_inner_alias() {
    let mut app = App::new();
    app.wizard_mode = WizardMode::CreateLocal;
    app.state.provider_kind = ProviderKind::OneDrive;
    app.state.last_test_outcome = Some(TestOutcome::Passed);
    app.screen = Screen::TestUpload;
    press(&mut app, KeyCode::Enter);
    assert_eq!(
        app.screen,
        Screen::InnerAlias,
        "OneDrive first setup must show the alias prompt before passphrase"
    );

    // Same routing for Google Drive — coherent with the OneDrive
    // arm and locks the OAuth pair.
    let mut app = App::new();
    app.wizard_mode = WizardMode::CreateLocal;
    app.state.provider_kind = ProviderKind::GoogleDrive;
    app.state.last_test_outcome = Some(TestOutcome::Passed);
    app.screen = Screen::TestUpload;
    press(&mut app, KeyCode::Enter);
    assert_eq!(app.screen, Screen::InnerAlias);

    // Nextcloud keeps the original direct path: the username
    // typed during auth already serves as the alias, no extra
    // prompt needed.
    let mut app = App::new();
    app.wizard_mode = WizardMode::CreateLocal;
    app.state.provider_kind = ProviderKind::Nextcloud;
    app.state.last_test_outcome = Some(TestOutcome::Passed);
    app.screen = Screen::TestUpload;
    press(&mut app, KeyCode::Enter);
    assert_eq!(
        app.screen,
        Screen::ProfilePassphrase,
        "Nextcloud first setup must not insert an extra alias prompt"
    );
}

#[test]
fn inner_alias_in_create_mode_stashes_alias_and_advances_to_passphrase() {
    let mut app = App::new();
    app.wizard_mode = WizardMode::CreateLocal;
    app.state.provider_kind = ProviderKind::OneDrive;
    app.screen = Screen::InnerAlias;
    app.inner_alias_input.set_value("personal");
    press(&mut app, KeyCode::Enter);
    assert_eq!(app.screen, Screen::ProfilePassphrase);
    assert_eq!(app.state.alias_override.as_deref(), Some("personal"));
    assert!(
        !app.add_inner_request,
        "first-setup InnerAlias must NOT arm add_inner_request"
    );
}

/// The add-connection sub-flow keeps the unlocked container's
/// profiles: the container handed to the writer holds the old profile
/// and the new one, in that order.
#[test]
fn add_inner_profile_flow_appends_instead_of_overwriting() {
    let mut unlocked_set = ProfileSet::new();
    unlocked_set.profiles.push(nc_profile("first", "alice"));
    let kek = ProfileKek::from_parts(vec![1u8; 32], vec![2u8; 16]);

    let mut app = App::new();
    app.local_exists = true;
    app.welcome_item = WelcomeItem::Configure;
    app.unlock_source = ProfileSource::Local;
    press(&mut app, KeyCode::Enter);
    assert_eq!(app.wizard_mode, WizardMode::AddInnerProfile);
    assert_eq!(app.screen, Screen::ProfileUnlock);

    app.apply_unlock_set_done(unlocked_set, kek, None);
    assert_eq!(app.screen, Screen::Provider);
    assert_eq!(app.unlocked_set.as_ref().map(|s| s.profiles.len()), Some(1));

    app.state.server_url = "https://example.org".into();
    app.state.username = "bob".into();
    app.state.auth_secret = "y".into();
    app.state.remote_folder = "/zz-drop".into();
    app.screen = Screen::TestUpload;
    app.state.last_test_outcome = Some(TestOutcome::Passed);
    press(&mut app, KeyCode::Enter);
    assert_eq!(app.screen, Screen::InnerAlias);
    assert!(!app.save_request, "AddInnerProfile must not arm save_request");

    app.inner_alias_input.set_value("second");
    press(&mut app, KeyCode::Enter);
    assert!(app.add_inner_request);
    assert_eq!(
        app.unlocked_set.as_ref().map(|s| s.profiles.len()),
        Some(1),
        "the set must still hold the existing profile when the writer picks it up"
    );

    let new_set = app
        .added_inner_set_at("second", true, &roots(), 1_700_000_000)
        .expect("the new connection is added");
    assert_eq!(new_set.profiles.len(), 2);
    let aliases: Vec<&str> = new_set.profiles.iter().map(|p| p.alias.as_str()).collect();
    assert_eq!(aliases, vec!["first", "second"]);
    assert_eq!(new_set.profiles[1].default_target, "nextcloud");
    assert_eq!(new_set.profiles[1].profile_id, "local-1700000000");
}
