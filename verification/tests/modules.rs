use zz_drop_tui::input::TextInput;
use zz_drop_tui::layout::{split, Rect, MIN_HEIGHT, MIN_WIDTH, TARGET_HEIGHT, TARGET_WIDTH};
use zz_drop_tui::qr::{build_qr_image, qr_outer_size, qr_plan, InlineProtocol, QrPlan, TerminalKind};
use zz_drop_tui::screens::{ContainerPickerScreen, ProviderScreen, SetupDropboxScreen};
use zz_drop_tui::theme::{MockEnv, Theme};
use zz_drop_tui::wizard::{
    truncate_middle, AuthKind, CollisionChoice, DropboxSetupStage, DropboxSetupState, LoginFlowStage,
    LoginFlowState, WizardState,
};

// ── text input ────────────────────────────────────────────────────

#[test]
fn push_appends() {
    let mut t = TextInput::new();
    t.push_char('a');
    t.push_char('b');
    assert_eq!(t.value(), "ab");
}

#[test]
fn backspace_removes_last() {
    let mut t = TextInput::new();
    t.push_char('a');
    t.push_char('b');
    t.backspace();
    assert_eq!(t.value(), "a");
}

#[test]
fn backspace_on_empty_is_noop() {
    let mut t = TextInput::new();
    t.backspace();
    assert_eq!(t.value(), "");
}

#[test]
fn handles_unicode() {
    let mut t = TextInput::new();
    t.push_char('日');
    t.push_char('本');
    t.backspace();
    assert_eq!(t.value(), "日");
}

#[test]
fn masked_does_not_change_value() {
    let mut t = TextInput::masked();
    t.push_char('s');
    t.push_char('e');
    t.push_char('c');
    assert_eq!(t.value(), "sec");
}

#[test]
fn set_value_replaces() {
    let mut t = TextInput::new();
    t.push_char('x');
    t.set_value("hello");
    assert_eq!(t.value(), "hello");
}

// ── wizard state ──────────────────────────────────────────────────

#[test]
fn server_url_validation() {
    let mut w = WizardState::default();
    assert!(!w.server_url_valid());
    w.server_url = "not-a-url".into();
    assert!(!w.server_url_valid());
    w.server_url = "https://nc.example.org".into();
    assert!(w.server_url_valid());
    w.server_url = "http://localhost:8080".into();
    assert!(w.server_url_valid());
    w.server_url = "ftp://nc.example.org".into();
    assert!(!w.server_url_valid());
}

#[test]
fn username_validation() {
    let mut w = WizardState::default();
    assert!(!w.username_valid());
    w.username = "user".into();
    assert!(w.username_valid());
    w.username = "   ".into();
    assert!(!w.username_valid());
}

/// Whether a remote root survives encoding: here, the verdict the
/// encoder gives on the test paths (no `..` segment).
fn encodable(folder: &str) -> bool {
    !folder.split('/').any(|seg| seg == "..")
}

#[test]
fn remote_folder_validation_uses_core() {
    let mut w = WizardState::default();
    assert!(!w.remote_folder_valid(encodable(&w.remote_folder)));
    w.remote_folder = "/zz-drop".into();
    assert!(w.remote_folder_valid(encodable(&w.remote_folder)));
    w.remote_folder = "/a/../b".into();
    assert!(!w.remote_folder_valid(encodable(&w.remote_folder)));
}

#[test]
fn auth_kind_cycles() {
    let mut k = AuthKind::default();
    assert_eq!(k, AuthKind::AppPassword);
    k = k.next();
    assert_eq!(k, AuthKind::LoginFlow);
    k = k.next();
    assert_eq!(k, AuthKind::AppPassword);
}

#[test]
fn collision_choice_roundtrip() {
    for c in [CollisionChoice::Rename, CollisionChoice::Overwrite, CollisionChoice::Fail] {
        assert_eq!(CollisionChoice::from_policy(c.to_policy()), c);
    }
}

#[test]
fn debug_does_not_leak_secret() {
    let mut w = WizardState::default();
    w.auth_secret = "topsecret-canary".into();
    let dbg = w.debug_redacted_does_not_leak();
    assert!(!dbg.contains("topsecret-canary"));
}

#[test]
fn truncate_middle_short_passthrough() {
    assert_eq!(truncate_middle("hello", 10), "hello");
}

#[test]
fn truncate_middle_inserts_ellipsis() {
    let out = truncate_middle("https://nc.example.org/index.php/login/v2/flow/abcdef", 30);
    assert_eq!(out.chars().count(), 30);
    assert!(out.contains('…'));
}

#[test]
fn truncate_middle_keeps_head_and_tail_visible() {
    let out = truncate_middle("https://nc.example.org/index.php/login/v2/flow/abcdef", 30);
    assert!(out.starts_with("https://"));
    assert!(out.ends_with("abcdef"));
}

#[test]
fn login_flow_state_debug_does_not_leak() {
    let s = LoginFlowState {
        stage: LoginFlowStage::Polling,
        login_url: "https://nc.example.org/index.php/login/v2/flow/canary-leak".into(),
        poll_token: "token-canary-leak".into(),
        poll_endpoint: "https://nc.example.org/poll".into(),
        show_url_modal: false,
        show_qr: false,
        disable_inline_qr: false,
        clipboard_message: None,
        browser_message: None,
    };
    let d = s.redacted_debug();
    assert!(!d.contains("canary-leak"));
    assert!(!d.contains("token-canary-leak"));
}

// ── screens ───────────────────────────────────────────────────────

#[test]
fn keybar_includes_navigation_and_use() {
    let hints = ContainerPickerScreen::keybar_hint();
    assert!(hints.iter().any(|k| k.label.contains("navigate")));
    assert!(hints.iter().any(|k| k.label.contains("use")));
}

#[test]
fn keybar_hint_includes_navigation() {
    let hints = ProviderScreen::keybar_hint();
    assert!(hints.iter().any(|k| k.label.contains("select")));
    assert!(hints.iter().any(|k| k.label.contains("continue")));
}

fn awaiting_state() -> DropboxSetupState {
    DropboxSetupState {
        stage: DropboxSetupStage::AwaitingPaste,
        authorize_url: "https://www.dropbox.com/oauth2/authorize?client_id=abc&response_type=code&code_challenge=XYZ&code_challenge_method=S256&token_access_type=offline".into(),
        code_verifier: "verifier-canary".into(),
        ..Default::default()
    }
}

#[test]
fn keybar_hint_changes_per_stage() {
    let mut s = DropboxSetupState::default();
    assert!(SetupDropboxScreen::keybar_hint(&s).iter().any(|k| k.label.contains("preparing")));

    s.stage = DropboxSetupStage::AwaitingPaste;
    s.show_qr = true;
    let hints = SetupDropboxScreen::keybar_hint(&s);
    assert!(hints.iter().any(|k| k.label.contains("copy")));
    assert!(hints.iter().any(|k| k.label.contains("paste")));
    assert!(hints.iter().any(|k| k.label.contains("hide qr")));
    // ↵ exchange only after a valid-looking paste.
    assert!(!hints.iter().any(|k| k.label.contains("exchange")));

    s.pasted_code.set_value("ABCDEFGHIJ");
    let hints = SetupDropboxScreen::keybar_hint(&s);
    assert!(hints.iter().any(|k| k.label.contains("exchange")));

    s.stage = DropboxSetupStage::Exchanging;
    assert!(SetupDropboxScreen::keybar_hint(&s).iter().any(|k| k.label.contains("exchanging")));

    s.stage = DropboxSetupStage::Done;
    assert!(SetupDropboxScreen::keybar_hint(&s).iter().any(|k| k.label.contains("continue")));

    s.stage = DropboxSetupStage::Failed("expired".into());
    assert!(SetupDropboxScreen::keybar_hint(&s).iter().any(|k| k.label.contains("retry")));
}

#[test]
fn qr_url_returns_authorize_url() {
    let s = awaiting_state();
    assert!(s.qr_url().starts_with("https://www.dropbox.com/oauth2/authorize"));
}

#[test]
fn debug_redacts_secrets_keeps_stage_marker() {
    let mut s = awaiting_state();
    s.code_verifier = "VERIFIER-CANARY".into();
    s.access_token = "AT-CANARY".into();
    s.refresh_token = "RT-CANARY".into();
    s.pasted_code.set_value("PASTED-CANARY");
    s.user_email = "alice@example.org".into();
    let d = s.redacted_debug();
    assert!(!d.contains("VERIFIER-CANARY"));
    assert!(!d.contains("AT-CANARY"));
    assert!(!d.contains("RT-CANARY"));
    assert!(!d.contains("PASTED-CANARY"));
    assert!(!d.contains("alice@example.org"));
    assert!(d.contains("AwaitingPaste"));
    assert!(d.contains("user_email_set: true"));
}

#[test]
fn pasted_code_appears_valid_rejects_short_or_garbage() {
    let mut s = DropboxSetupState::default();
    assert!(!s.pasted_code_appears_valid());
    s.pasted_code.set_value("abc");
    assert!(!s.pasted_code_appears_valid()); // too short
    s.pasted_code.set_value("valid-code-12345");
    assert!(s.pasted_code_appears_valid());
    s.pasted_code.set_value("has space inside");
    assert!(!s.pasted_code_appears_valid()); // invalid char
}

// ── theme ─────────────────────────────────────────────────────────

#[test]
fn no_tty_disables_color() {
    assert!(!Theme::from_parts(&MockEnv::empty(), false).colored);
}

#[test]
fn tty_enables_color() {
    assert!(Theme::from_parts(&MockEnv::empty(), true).colored);
}

#[test]
fn no_color_overrides_tty() {
    let t = Theme::from_parts(&MockEnv::empty().with("NO_COLOR", "1"), true);
    assert!(!t.colored);
}

#[test]
fn force_color_overrides_no_tty() {
    let t = Theme::from_parts(&MockEnv::empty().with("FORCE_COLOR", "1"), false);
    assert!(t.colored);
}

#[test]
fn no_color_beats_force_color() {
    let env = MockEnv::empty().with("NO_COLOR", "1").with("FORCE_COLOR", "1");
    assert!(!Theme::from_parts(&env, true).colored);
}

#[test]
fn no_color_mode_never_emits_bg() {
    let t = Theme::from_parts(&MockEnv::empty(), false);
    // None of the foreground accessors set a background in NO_COLOR mode
    assert!(t.body().bg.is_none());
    assert!(t.dim().bg.is_none());
    assert!(t.accent().bg.is_none());
    assert!(t.cyan().bg.is_none());
    assert!(t.ok().bg.is_none());
    assert!(t.warn().bg.is_none());
    assert!(t.danger().bg.is_none());
    // Chip-style accessors: also no bg in NO_COLOR mode (use REVERSED instead)
    assert!(t.keybar_chip().bg.is_none());
    assert!(t.pill_idle().bg.is_none());
    assert!(t.pill_ready().bg.is_none());
    assert!(t.pill_warn().bg.is_none());
    assert!(t.pill_running().bg.is_none());
}

// ── QR ────────────────────────────────────────────────────────────

#[test]
fn allowlist_picks_only_known_quiet_terminals() {
    for k in [TerminalKind::Kitty, TerminalKind::WezTerm, TerminalKind::Ghostty] {
        assert!(k.is_inline_safe(), "{k:?} should be on the allowlist");
        assert_eq!(k.preferred_protocol(), Some(InlineProtocol::Kitty));
    }
    for k in [TerminalKind::Iterm2, TerminalKind::AppleTerminal, TerminalKind::Other] {
        assert!(!k.is_inline_safe(), "{k:?} should NOT be on the allowlist");
    }
    assert_eq!(
        TerminalKind::Iterm2.preferred_protocol(),
        Some(InlineProtocol::Iterm2),
        "iTerm2 force-override must still emit the right protocol when force=true"
    );
    assert_eq!(TerminalKind::AppleTerminal.preferred_protocol(), None);
    assert_eq!(TerminalKind::Other.preferred_protocol(), None);
}

#[test]
fn render_qr_does_not_panic_on_tiny_area() {
    match qr_plan("https://example.org", 5, 5) {
        QrPlan::Message(m) => assert!(m.starts_with("(qr needs ")),
        _ => panic!("a 5x5 pane fits no rendering"),
    }
}

#[test]
fn render_qr_fits_in_normal_area() {
    match qr_plan("https://example.org/login", 80, 30) {
        QrPlan::HalfBlock(lines) => {
            let (w, _) = qr_outer_size("https://example.org/login").unwrap();
            assert_eq!(lines[0].chars().count() as u16, w - 2);
        }
        _ => panic!("an 80x30 pane fits the half-block rendering"),
    }
}

#[test]
fn build_qr_image_produces_an_image() {
    let img = build_qr_image("https://example.org/login").unwrap();
    assert!(img.width() > 0);
    assert!(img.height() > 0);
    assert_eq!(img.width(), img.height(), "QR is square");
}

// ── frame layout ──────────────────────────────────────────────────

#[test]
fn title_steps_body_keybar_split_at_target() {
    let area = Rect::new(0, 0, TARGET_WIDTH, TARGET_HEIGHT);
    let r = split(area);
    assert!(!r.too_small);
    assert_eq!(r.title.height, 1);
    assert_eq!(r.steps.height, 1);
    assert_eq!(r.keybar.height, 1);
    assert!(r.body.height >= 20);
    // contiguous: title.y=0, steps.y=1, body.y=2, keybar.y=last
    assert_eq!(r.title.y, 0);
    assert_eq!(r.steps.y, 1);
    assert_eq!(r.body.y, 2);
    assert_eq!(r.keybar.y, area.height - 1);
}

#[test]
fn min_size_still_splits() {
    let area = Rect::new(0, 0, MIN_WIDTH, MIN_HEIGHT);
    let r = split(area);
    assert!(!r.too_small);
    assert_eq!(r.title.height, 1);
    assert_eq!(r.steps.height, 1);
    assert_eq!(r.keybar.height, 1);
}

#[test]
fn below_min_is_too_small() {
    let area = Rect::new(0, 0, 60, 20);
    let r = split(area);
    assert!(r.too_small);
}

#[test]
fn narrow_terminal_is_too_small() {
    let area = Rect::new(0, 0, 70, 30);
    let r = split(area);
    assert!(r.too_small);
}

#[test]
fn short_terminal_is_too_small() {
    let area = Rect::new(0, 0, 100, 20);
    let r = split(area);
    assert!(r.too_small);
}

#[test]
fn rect_new_keeps_the_rectangle_inside_the_grid() {
    let r = Rect::new(65_530, 10, 100, 5);
    assert_eq!(r.width, 5);
    assert_eq!(r.height, 5);
}

#[test]
fn picker_rows_name_the_provider_family() {
    let mut p = zz_drop_tui::profile::PlainProfile {
        profile_version: 1,
        profile_id: "p".into(),
        alias: "a".into(),
        default_target: "dropbox".into(),
        providers: vec![],
        collision_policy: zz_drop_tui::profile::CollisionPolicy::Rename,
        settings_from: None,
        created_at: "epoch:0".into(),
        updated_at: "epoch:0".into(),
    };
    assert_eq!(ContainerPickerScreen::provider_summary(&p), "—");
    p.providers.push(zz_drop_tui::profile::ProviderProfile::Dropbox(zz_drop_tui::profile::OAuthConnection {
        root_folder: "zz-drop".into(),
        root_folder_id: None,
        user_email: String::new(),
        access_token: "a".into(),
        refresh_token: "r".into(),
        token_type: "bearer".into(),
        expires_at: 0,
        scope: String::new(),
    }));
    assert_eq!(ContainerPickerScreen::provider_summary(&p), "Dropbox · OAuth");
}
