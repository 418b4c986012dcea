use zz_drop_tui::alias_gen::{suggest_alias_for_seed, suggest_alias_from, ProviderPrefix};
use zz_drop_tui::app::{App, ProfileSource};
use zz_drop_tui::input::TextInput;
use zz_drop_tui::keys::{KeyCode, KeyContext, KeyEvent, KeyModifiers};
use zz_drop_tui::profile::{
    CollisionPolicy, NextcloudAuthKind, NextcloudConnection, PlainProfile, ProfileKek, ProfileSet,
    ProviderProfile,
};
use zz_drop_tui::outcomes::{
    LoginFlowInitOutcome, LoginFlowPollOutcome, ProbeCleanupOutcome, PushLoginOutcome, PushSummary,
    SaveProfileOutcome,
};
use zz_drop_tui::qr::{
    build_qr_image, half_block_lines, qr_image_rgba, qr_outer_size, qr_outer_size_for_width,
    qr_plan, qr_plan_for, quadrant_lines, QrPlan, TerminalKind,
};
use zz_drop_tui::remote::{
    login_flow_diag, nonce_text, push_start, short_error, sidecar_for, temp_file_name,
    test_file_basename, ApiErrorKind, ApiFailure, LoginFlowFailure, RemoteEntry, SidecarKind,
};
use zz_drop_tui::save::{
    dropbox_profile_from_setup, email_local_part, gdrive_profile_from_setup, new_inner_profile,
    new_inner_profile_at, onedrive_profile_from_setup, save_alias, DefaultRoots,
};
use zz_drop_tui::screens::{InnerAliasState, Screen};
use zz_drop_tui::wizard::{
    DropboxSetupState, GoogleDriveSetupState, LoginFlowStage, ManageStage, PassphraseStage,
    ProbeStepStatus, ProviderKind, PushStage, TestOutcome, WelcomeItem, WizardMode, WizardState,
};

fn key(code: KeyCode) -> KeyEvent {
    KeyEvent::new(code, KeyModifiers::Plain)
}

fn ctx() -> KeyContext {
    KeyContext {
        email_plausible: true,
        passphrase_weak: false,
        alias_valid: true,
        folder_encodable: true,
        seed: 7,
    }
}

fn profile(alias: &str) -> PlainProfile {
    PlainProfile {
        profile_version: 1,
        profile_id: format!("p-{alias}"),
        alias: alias.into(),
        default_target: "nextcloud".into(),
        providers: vec![ProviderProfile::Nextcloud(NextcloudConnection {
            server_url: "https://example.org".into(),
            username: "alice".into(),
            auth_kind: NextcloudAuthKind::AppPassword,
            secret: "x".into(),
            remote_root: "/zz-drop".into(),
        })],
        collision_policy: CollisionPolicy::Rename,
        settings_from: None,
        created_at: "epoch:0".into(),
        updated_at: "epoch:0".into(),
    }
}

fn roots() -> DefaultRoots {
    DefaultRoots {
        google_drive: "zz-drop-gd".into(),
        onedrive: "zz-drop-od".into(),
        dropbox: "zz-drop-db".into(),
    }
}

fn unlocked_app(aliases: &[&str]) -> App {
    let mut app = App::new();
    let mut set = ProfileSet::new();
    for a in aliases {
        set.profiles.push(profile(a));
    }
    app.unlocked_set = Some(set);
    app.unlocked_kek = Some(ProfileKek::from_parts(vec![0u8; 32], vec![0u8; 16]));
    app
}

// ── laws on concrete values ───────────────────────────────────────

#[test]
fn ctrl_c_quits_from_every_screen() {
    let screens = [
        Screen::Welcome,
        Screen::Provider,
        Screen::NextcloudServer,
        Screen::NextcloudAuth,
        Screen::TestUpload,
        Screen::ProfilePassphrase,
        Screen::Account,
        Screen::ProfileManage,
        Screen::InnerAlias,
    ];
    for s in screens {
        let mut app = App::new();
        app.screen = s;
        app.on_key(KeyEvent::new(KeyCode::Char('c'), KeyModifiers::Control), ctx());
        assert!(app.should_quit, "Ctrl-C must quit on {s:?}");
        assert_eq!(app.screen, s);
    }
}

#[test]
fn keys_are_ignored_while_a_request_is_in_flight() {
    let mut app = App::new();
    app.screen = Screen::Account;
    app.push_flow.stage = PushStage::AccountSending;
    app.on_key(key(KeyCode::Esc), ctx());
    app.on_key(key(KeyCode::Char('x')), ctx());
    assert_eq!(app.screen, Screen::Account);
    assert_eq!(app.push_flow.stage, PushStage::AccountSending);
    assert_eq!(app.account_email_input.value(), "");

    let mut app = App::new();
    app.screen = Screen::ProfilePassphrase;
    app.passphrase_stage = PassphraseStage::Encrypting;
    app.on_key(key(KeyCode::Esc), ctx());
    assert_eq!(app.screen, Screen::ProfilePassphrase);

    let mut app = App::new();
    app.screen = Screen::InnerAlias;
    app.inner_alias_state = InnerAliasState::Saving;
    app.on_key(key(KeyCode::Char('a')), ctx());
    assert_eq!(app.inner_alias_input.value(), "");

    let mut app = App::new();
    app.screen = Screen::TestUpload;
    app.test_running = true;
    app.on_key(key(KeyCode::Enter), ctx());
    assert!(!app.test_request);
}

#[test]
fn welcome_cursor_never_leaves_the_menu() {
    let mut app = App::new();
    app.remote_enabled = true;
    app.local_exists = true;
    for code in [KeyCode::Down, KeyCode::Down, KeyCode::Up, KeyCode::Up, KeyCode::Up, KeyCode::Char('j')] {
        app.on_key(key(code), ctx());
        assert!(app.welcome_items_active().contains(&app.welcome_item));
    }
}

#[test]
fn picker_row_wraps_inside_the_list() {
    let mut app = unlocked_app(&["a", "b", "c"]);
    app.screen = Screen::ContainerPicker;
    app.picker_index = 2;
    app.on_key(key(KeyCode::Down), ctx());
    assert_eq!(app.picker_index, 0);
    app.on_key(key(KeyCode::Up), ctx());
    assert_eq!(app.picker_index, 2);
}

#[test]
fn backspace_undoes_typing() {
    let mut t = TextInput::new();
    t.set_value("abc");
    t.push_char('x');
    t.backspace();
    assert_eq!(t.value(), "abc");
}

#[test]
fn wipe_then_open_prompts_for_passphrase() {
    let mut app = unlocked_app(&["a"]);
    app.local_exists = true;
    app.cached_source = Some(ProfileSource::Local);
    app.apply_wipe_done();
    app.local_exists = true;
    app.welcome_item = WelcomeItem::OpenLocal;
    app.on_key(key(KeyCode::Enter), ctx());
    assert_eq!(app.screen, Screen::ProfileUnlock);
    assert!(app.unlocked_set.is_none());
}

#[test]
fn removing_an_added_profile_restores_the_container() {
    let mut app = unlocked_app(&["first"]);
    app.state.provider_kind = ProviderKind::Nextcloud;
    app.state.username = "bob".into();
    let added = app.added_inner_set_at("second", true, &roots(), 5).unwrap();
    assert_eq!(added.profiles.len(), 2);
    app.unlocked_set = Some(added);
    let back = app.removed_inner_set("second").unwrap();
    let aliases: Vec<&str> = back.profiles.iter().map(|p| p.alias.as_str()).collect();
    assert_eq!(aliases, vec!["first"]);
}

#[test]
fn edits_keep_what_each_profile_was_decrypted_with() {
    let mut app = unlocked_app(&["first", "third"]);
    if let Some(set) = app.unlocked_set.as_mut() {
        set.profiles[0].settings_from = Some(0);
        set.profiles[1].settings_from = Some(1);
    }
    app.state.provider_kind = ProviderKind::Nextcloud;
    app.state.username = "bob".into();
    let added = app.added_inner_set_at("second", true, &roots(), 5).unwrap();
    let from: Vec<Option<usize>> = added.profiles.iter().map(|p| p.settings_from).collect();
    assert_eq!(from, vec![Some(0), Some(1), None]);
    app.unlocked_set = Some(added);
    let back = app.removed_inner_set("first").unwrap();
    let from: Vec<Option<usize>> = back.profiles.iter().map(|p| p.settings_from).collect();
    assert_eq!(from, vec![Some(1), None]);
}

// ── container edits: every refusal ────────────────────────────────

#[test]
fn adding_refuses_rejected_missing_or_taken_aliases() {
    let app = unlocked_app(&["first"]);
    assert_eq!(app.added_inner_set_at("x", false, &roots(), 0).unwrap_err(), "alias rejected");
    assert_eq!(
        app.added_inner_set_at("first", true, &roots(), 0).unwrap_err(),
        "alias already exists in this container"
    );
    let mut no_kek = unlocked_app(&["first"]);
    no_kek.unlocked_kek = None;
    assert_eq!(
        no_kek.added_inner_set_at("x", true, &roots(), 0).unwrap_err(),
        "no cached KEK; run `zz c` and unlock again"
    );
    let mut no_set = unlocked_app(&[]);
    no_set.unlocked_set = None;
    assert_eq!(no_set.added_inner_set_at("x", true, &roots(), 0).unwrap_err(), "container not in RAM");
    let mut gd = unlocked_app(&["first"]);
    gd.state.provider_kind = ProviderKind::GoogleDrive;
    assert_eq!(
        gd.added_inner_set_at("x", true, &roots(), 0).unwrap_err(),
        "google drive setup did not yield tokens"
    );
}

#[test]
fn removing_refuses_empty_unknown_or_last_alias() {
    let app = unlocked_app(&["a", "b"]);
    assert_eq!(app.removed_inner_set("").unwrap_err(), "no active inner profile to delete");
    assert_eq!(app.removed_inner_set("zz").unwrap_err(), "alias `zz` not found in container");
    let one = unlocked_app(&["a"]);
    assert_eq!(one.removed_inner_set("a").unwrap_err(), "refusing to write an empty container");
    let mut no_set = unlocked_app(&[]);
    no_set.unlocked_set = None;
    assert_eq!(no_set.removed_inner_set("a").unwrap_err(), "container not in RAM");
    let kept = app.removed_inner_set("a").unwrap();
    assert_eq!(kept.profiles.len(), 1);
    assert_eq!(kept.profiles[0].alias, "b");
}

// ── the profile the wizard saves ──────────────────────────────────

#[test]
fn local_part_stops_at_the_first_at_sign() {
    assert_eq!(email_local_part("alice@example.org"), "alice");
    assert_eq!(email_local_part("no-at-sign"), "no-at-sign");
    assert_eq!(email_local_part("@x"), "");
}

#[test]
fn save_alias_prefers_override_then_provider_default() {
    let mut state = WizardState::default();
    let gd = GoogleDriveSetupState::default();
    let mut od = GoogleDriveSetupState::default();
    od.user_email = "carol@example.org".into();
    let db = DropboxSetupState::default();
    state.username = "nc-user".into();
    assert_eq!(save_alias(&state, &gd, &od, &db), "nc-user");
    state.provider_kind = ProviderKind::OneDrive;
    assert_eq!(save_alias(&state, &gd, &od, &db), "carol");
    state.alias_override = Some(String::new());
    assert_eq!(save_alias(&state, &gd, &od, &db), "carol");
    state.alias_override = Some("personal".into());
    assert_eq!(save_alias(&state, &gd, &od, &db), "personal");
}

#[test]
fn oauth_connection_needs_both_tokens_and_defaults_the_folder() {
    let mut s = GoogleDriveSetupState::default();
    s.access_token = "AT".into();
    assert!(gdrive_profile_from_setup(&s, "zz-drop").is_none());
    s.refresh_token = "RT".into();
    s.root_folder = String::new();
    let c = gdrive_profile_from_setup(&s, "fallback").unwrap();
    assert_eq!(c.root_folder, "fallback");
    s.root_folder = "mine".into();
    assert_eq!(onedrive_profile_from_setup(&s, "zz-drop").unwrap().root_folder, "mine");
    let mut d = DropboxSetupState::default();
    assert!(dropbox_profile_from_setup(&d, "zz-drop").is_none());
    d.access_token = "AT".into();
    d.refresh_token = "RT".into();
    d.scope = "files.content.write".into();
    d.root_folder = String::new();
    let c = dropbox_profile_from_setup(&d, "fallback").unwrap();
    assert_eq!(c.scope, "files.content.write");
    assert_eq!(c.root_folder, "fallback");
}

#[test]
fn new_onedrive_profile_carries_tokens_and_stamp() {
    let mut state = WizardState::default();
    state.provider_kind = ProviderKind::OneDrive;
    let gd = GoogleDriveSetupState::default();
    let mut od = GoogleDriveSetupState::default();
    od.access_token = "access-token-canary".into();
    od.refresh_token = "refresh-token-canary".into();
    od.user_email = "alice@example.org".into();
    od.root_folder = String::new();
    let db = DropboxSetupState::default();
    let p = new_inner_profile_at(&state, &gd, &od, &db, &roots(), "onedrive-canary", 1_700_000_000)
        .unwrap();
    assert_eq!(p.alias, "onedrive-canary");
    assert_eq!(p.default_target, "onedrive");
    assert_eq!(p.profile_id, "local-1700000000");
    assert_eq!(p.created_at, "epoch:1700000000");
    assert_eq!(p.updated_at, "epoch:1700000000");
    match &p.providers[..] {
        [ProviderProfile::OneDrive(c)] => {
            assert_eq!(c.root_folder, "zz-drop-od");
            assert_eq!(c.access_token, "access-token-canary");
            assert_eq!(c.user_email, "alice@example.org");
        }
        _ => panic!("expected one OneDrive entry"),
    }
    let stamped = new_inner_profile(&state, &gd, &od, &db, &roots(), "x").unwrap();
    assert!(stamped.profile_id.starts_with("local-"));
    let mut empty = GoogleDriveSetupState::default();
    empty.access_token = "access-token-canary".into();
    assert_eq!(
        new_inner_profile_at(&state, &gd, &empty, &db, &roots(), "x", 0).unwrap_err(),
        "onedrive setup did not yield tokens"
    );
    state.provider_kind = ProviderKind::Dropbox;
    assert_eq!(
        new_inner_profile_at(&state, &gd, &od, &db, &roots(), "x", 0).unwrap_err(),
        "dropbox setup did not yield tokens"
    );
}

// ── server calls and probe files ──────────────────────────────────

#[test]
fn short_errors_for_every_failure() {
    assert_eq!(short_error(ApiFailure::Network), "could not reach the server");
    assert_eq!(short_error(ApiFailure::Transport), "could not reach the server");
    assert_eq!(short_error(ApiFailure::Decode), "bad server response");
    assert_eq!(short_error(ApiFailure::NoToken), "missing session");
    let cases = [
        (ApiErrorKind::Unauthorized, "wrong credentials"),
        (ApiErrorKind::Forbidden, "forbidden"),
        (ApiErrorKind::NotFound, "not found"),
        (ApiErrorKind::VersionConflict, "version conflict — please retry"),
        (ApiErrorKind::BlobTooLarge, "blob too large"),
        (ApiErrorKind::RateLimited, "rate limited"),
        (ApiErrorKind::ServerError, "server error"),
    ];
    for (k, want) in cases {
        assert_eq!(short_error(ApiFailure::Api(k, "ignored".into())), want);
    }
    assert_eq!(
        short_error(ApiFailure::Api(ApiErrorKind::InvalidRequest, "alias too long".into())),
        "alias too long"
    );
    assert_eq!(login_flow_diag(LoginFlowFailure::BadUrl), "invalid server url");
    assert_eq!(login_flow_diag(LoginFlowFailure::Network), "network error");
    assert_eq!(login_flow_diag(LoginFlowFailure::ServerError), "server error");
    assert_eq!(login_flow_diag(LoginFlowFailure::Decode), "bad response");
}

#[test]
fn push_starts_from_the_listed_version_or_creates() {
    let entries = vec![
        RemoteEntry { alias: "a".into(), blob_version: 3 },
        RemoteEntry { alias: "b".into(), blob_version: 9 },
    ];
    assert_eq!(push_start(&entries, "b"), (false, 9));
    assert_eq!(push_start(&entries, "c"), (true, 0));
}

#[test]
fn probe_file_names() {
    assert_eq!(nonce_text(255), "00000000000000ff");
    assert_eq!(nonce_text(0x1234_5678_9abc_def0_1234), "123456789abcdef01234");
    assert_eq!(test_file_basename("00ab"), "zz-drop-test-00ab.txt");
    assert_eq!(temp_file_name("00ab"), "zz-drop-test-00ab.tmp");
    assert_eq!(sidecar_for("profiles-local.zz"), Some(SidecarKind::Local));
    assert_eq!(sidecar_for("profiles-remote.zz"), Some(SidecarKind::Remote));
    assert_eq!(sidecar_for("other.zz"), None);
    assert_eq!(SidecarKind::Remote.file_name(), "last-default-remote");
}

// ── QR layout ─────────────────────────────────────────────────────

#[test]
fn qr_panel_size_formula() {
    assert_eq!(qr_outer_size_for_width(21), (25, 14));
    assert_eq!(qr_outer_size_for_width(25), (29, 16));
    let (w, h) = qr_outer_size("https://example.org/login").unwrap();
    let modules = (w - 4) as usize;
    assert!(modules >= 21);
    assert_eq!(h as usize, (modules + 1) / 2 + 3);
}

#[test]
fn text_renderings_of_a_tiny_grid() {
    let m = vec![true, false, false, true];
    assert_eq!(half_block_lines(&m, 2), vec![" ▀▄ ".to_string()]);
    assert_eq!(quadrant_lines(&m, 2), vec![" ▚ ".to_string()]);
}

#[test]
fn too_small_pane_message_gives_both_sizes() {
    let m = vec![false; 21 * 21];
    match qr_plan_for(&m, 21, 5, 5) {
        QrPlan::Message(s) => {
            assert_eq!(s, "(qr needs 23x11 half-block or 13x11 quadrant; this pane is 5x5)")
        }
        _ => panic!("expected the message"),
    }
    match qr_plan_for(&m, 21, 13, 11) {
        QrPlan::Quadrant(lines) => assert_eq!(lines.len(), 11),
        _ => panic!("expected the quadrant rendering"),
    }
    match qr_plan("", 80, 30) {
        QrPlan::HalfBlock(_) | QrPlan::Message(_) => {}
        QrPlan::Quadrant(_) => panic!("a wide pane never needs quadrants"),
    }
}

#[test]
fn image_pixels_follow_the_modules() {
    let b = qr_image_rgba(&vec![true], 1);
    let side = 72usize;
    assert_eq!(b.len(), side * side * 4);
    let px = |x: usize, y: usize| {
        let i = 4 * (y * side + x);
        (b[i], b[i + 1], b[i + 2], b[i + 3])
    };
    assert_eq!(px(0, 0), (255, 255, 255, 255));
    assert_eq!(px(32, 32), (0, 0, 0, 255));
    assert_eq!(px(39, 39), (0, 0, 0, 255));
    assert_eq!(px(40, 32), (255, 255, 255, 255));
}

#[test]
fn inline_image_side_matches_the_symbol() {
    let text = "https://example.org/login";
    let (w, _) = qr_outer_size(text).unwrap();
    let modules = (w - 4) as u32;
    let img = build_qr_image(text).unwrap();
    assert_eq!(img.width(), (modules + 8) * 8);
}

#[test]
fn terminal_classification() {
    assert_eq!(TerminalKind::classify("", "xterm-kitty", false, false), TerminalKind::Kitty);
    assert_eq!(TerminalKind::classify("", "", true, false), TerminalKind::Kitty);
    assert_eq!(TerminalKind::classify("WezTerm", "", false, false), TerminalKind::WezTerm);
    assert_eq!(TerminalKind::classify("", "", false, true), TerminalKind::Ghostty);
    assert_eq!(TerminalKind::classify("iTerm.app", "", false, false), TerminalKind::Iterm2);
    assert_eq!(
        TerminalKind::classify("Apple_Terminal", "", false, false),
        TerminalKind::AppleTerminal
    );
    assert_eq!(TerminalKind::classify("vscode", "xterm", false, false), TerminalKind::Other);
    assert!(!TerminalKind::Iterm2.inline_allowed(false));
    assert!(TerminalKind::Iterm2.inline_allowed(true));
}

#[test]
fn alias_suggestions_from_a_seed() {
    let plain = suggest_alias_from(0);
    assert_eq!(suggest_alias_for_seed(ProviderPrefix::GoogleDrive, 0), format!("gdrive-{plain}"));
    assert_eq!(plain, "amber-otter-10");
}

#[test]
fn server_url_parsing_accepts_only_http_schemes() {
    let mut w = WizardState::default();
    w.server_url = "  https://nc.example.org  ".into();
    assert!(w.server_url_valid());
    w.server_url = "https://".into();
    assert!(!w.server_url_valid());
    assert_eq!(ManageStage::default(), ManageStage::Locked);
}

// ── answers from the outside calls ────────────────────────────────

#[test]
fn login_answers_route_the_account_flow() {
    let mut app = App::new();
    app.screen = Screen::Account;
    app.apply_login_outcome(Ok(PushLoginOutcome::TotpRequired("ch".into())));
    assert_eq!(app.screen, Screen::LoginTotp);
    assert_eq!(app.push_flow.login_challenge.as_deref(), Some("ch"));
    app.apply_login_outcome(Err("wrong credentials".into()));
    assert_eq!(app.push_flow.stage, PushStage::Failed("wrong credentials".into()));
    app.apply_login_outcome(Ok(PushLoginOutcome::Session("tok".into())));
    assert_eq!(app.cached_session_token.as_deref(), Some("tok"));
}

#[test]
fn push_answer_asks_for_a_mirror_only_for_a_pushed_container() {
    let mut app = App::new();
    app.wizard_mode = WizardMode::CreateRemote;
    app.profile_local_path = Some("/tmp/l.zz".into());
    app.profile_remote_path = Some("/tmp/r.zz".into());
    let s = PushSummary { alias: "casa".into(), blob_size: 10, blob_version: 2 };
    assert!(app.apply_push_result(Ok(s)));
    assert_eq!(app.pushed_summary.as_ref().map(|p| p.blob_version), Some(2));
    assert!(!app.apply_push_result(Err("blob too large".into())));
    assert_eq!(app.push_flow.stage, PushStage::Failed("blob too large".into()));
}

#[test]
fn login_flow_and_save_answers() {
    let mut app = App::new();
    app.apply_login_flow_init_outcome(LoginFlowInitOutcome::Started {
        login_url: "https://nc/login".into(),
        token: "t".into(),
        endpoint: "https://nc/poll".into(),
    });
    assert_eq!(app.login_flow.stage, LoginFlowStage::Polling);
    app.apply_login_flow_poll_outcome(LoginFlowPollOutcome::Pending);
    assert_eq!(app.login_flow.stage, LoginFlowStage::Polling);
    app.apply_login_flow_poll_outcome(LoginFlowPollOutcome::Done {
        login_name: "alice".into(),
        app_password: "pw".into(),
    });
    assert_eq!(app.state.username, "alice");
    assert_eq!(app.secret_input.value(), "pw");
    app.apply_login_flow_init_outcome(LoginFlowInitOutcome::Failed("network error".into()));
    assert_eq!(app.login_flow.stage, LoginFlowStage::Failed("network error".into()));

    app.test_running = true;
    app.apply_probe_cleanup_outcome(ProbeCleanupOutcome::Failed("delete: 403".into()));
    assert_eq!(app.state.probe_progress.cleanup, ProbeStepStatus::Failed);
    assert_eq!(app.state.last_test_outcome, Some(TestOutcome::Failed("delete: 403".into())));
    assert!(!app.test_running);
    app.apply_probe_cleanup_outcome(ProbeCleanupOutcome::Cleaned);
    assert_eq!(app.state.last_test_outcome, Some(TestOutcome::Passed));

    app.apply_save_outcome(SaveProfileOutcome::Failed("disk full".into()));
    assert_eq!(app.passphrase_stage, PassphraseStage::Failed("disk full".into()));
    app.apply_rewrite_outcome(SaveProfileOutcome::Saved { path: "/tmp/p.zz".into() });
    assert!(app.push_request_send);
    assert_eq!(app.saved_path.as_deref(), Some("/tmp/p.zz"));
    app.apply_save_outcome(SaveProfileOutcome::Saved { path: "/tmp/q.zz".into() });
    assert!(app.local_exists);
}

#[test]
fn device_code_expiry_and_poll_interval() {
    let mut s = GoogleDriveSetupState::default();
    assert!(!s.code_expired(1_000));
    s.expires_at = 500;
    assert!(s.code_expired(500));
    assert!(!s.code_expired(499));
    s.interval_secs = 0;
    assert_eq!(s.poll_interval_secs(), 1);
    s.interval_secs = 5;
    assert_eq!(s.poll_interval_secs(), 5);
}
