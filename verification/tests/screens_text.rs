use zz_drop_tui::app::{App, PushedSummary};
use zz_drop_tui::content::{done_content, LoginFlowView, MenuRow, StyledSpan};
use zz_drop_tui::profile::{
    CollisionPolicy, NextcloudAuthKind, NextcloudConnection, PlainProfile, ProviderProfile,
};
use zz_drop_tui::screens::{
    ContainerPickerScreen, NextcloudLoginFlowScreen, ProfilePassphraseScreen, WelcomeScreen,
};
use zz_drop_tui::widgets::CheckStatus;
use zz_drop_tui::wizard::{LoginFlowStage, LoginFlowState, PassphraseStage, WelcomeItem};
use zz_drop_tui::theme::{PanelAccent, StyleRole};

fn flatten(lines: &[Vec<StyledSpan>]) -> String {
    let mut out = String::new();
    for l in lines {
        for s in l {
            out.push_str(&s.text);
        }
        out.push('\n');
    }
    out
}

fn render_local_only_done() -> String {
    let (_, _, lines) = done_content(
        Some("/tmp/zz-drop-test/profiles-local.zz"),
        None,
        "cloud.example.org",
        None,
    );
    flatten(&lines)
}

#[test]
fn done_screen_lists_the_daily_cli_recap() {
    let s = render_local_only_done();
    for needle in ["zz x", "zz file.md", "zz d file.md", "zz q"] {
        assert!(s.contains(needle), "daily recap missing `{needle}` — render was:\n{s}");
    }
}

#[test]
fn done_screen_offers_shell_completion_install_lines() {
    let s = render_local_only_done();
    assert!(s.contains("zz --completions bash"), "missing bash install line:\n{s}");
    assert!(s.contains("zz --completions zsh"), "missing zsh install line:\n{s}");
    assert!(s.contains("zz --completions fish"), "missing fish install line:\n{s}");
    assert!(s.contains("optional"), "completion section not flagged optional:\n{s}");
}

#[test]
fn done_screen_does_not_leak_zz_drop_net_or_real_emails() {
    let s = render_local_only_done();
    assert!(!s.contains("zz-drop.net"));
    assert!(!s.contains("@example.com"));
    assert!(!s.contains("@example.org"));
    assert!(!s.to_lowercase().contains("bearer"));
    assert!(!s.contains("access_token"));
    assert!(!s.contains("refresh_token"));
}

#[test]
fn done_screen_panels_for_each_outcome() {
    let (title, accent, lines) = done_content(None, None, "cloud.example.org", None);
    assert_eq!(title, " local profile saved · no recovery ");
    assert_eq!(accent, PanelAccent::Yellow);
    assert!(flatten(&lines).contains("then press p to push it to cloud.example.org under an alias."));

    let pushed = PushedSummary { alias: "casa-nc".into(), blob_size: 4096, blob_version: 3 };
    let (title, accent, lines) = done_content(None, Some(&pushed), "x", None);
    assert_eq!(title, " done ");
    assert_eq!(accent, PanelAccent::Mint);
    let s = flatten(&lines);
    assert!(s.contains("    zz z casa-nc    # 4096 bytes, version 3"), "got:\n{s}");
    assert!(!s.contains("no recovery"));

    let (title, _, lines) = done_content(Some("/c.zz"), None, "x", Some("fresh"));
    assert_eq!(title, " connection added ");
    let s = flatten(&lines);
    assert!(s.contains("  alias  fresh"));
    assert!(s.contains("  file   /c.zz"));
    assert!(!s.contains("daily use"));
    assert_eq!(lines[1][0].role, StyleRole::Good);
}

fn nc_profile(alias: &str) -> PlainProfile {
    PlainProfile {
        profile_version: 1,
        profile_id: format!("p-{alias}"),
        alias: alias.into(),
        default_target: "nextcloud".into(),
        providers: vec![ProviderProfile::Nextcloud(NextcloudConnection {
            server_url: "https://example.org".into(),
            username: "alice".into(),
            auth_kind: NextcloudAuthKind::AppPassword,
            secret: "x".into(),
            remote_root: "/zz-drop".into(),
        })],
        collision_policy: CollisionPolicy::Rename,
        settings_from: None,
        created_at: "x".into(),
        updated_at: "x".into(),
    }
}

fn picker_text(profiles: &[PlainProfile], sel: usize, def: Option<&str>) -> String {
    let mut out = ContainerPickerScreen::panel_title(profiles.len());
    out.push('\n');
    for (i, p) in profiles.iter().enumerate() {
        for s in ContainerPickerScreen::row_spans(p, i == sel, def) {
            out.push_str(&s.text);
        }
        out.push('\n');
    }
    out
}

#[test]
fn lists_all_aliases_with_arrow_on_selected() {
    let set = [nc_profile("alpha"), nc_profile("beta"), nc_profile("gamma")];
    let out = picker_text(&set, 1, None);
    assert!(out.contains("alpha"));
    assert!(out.contains("beta"));
    assert!(out.contains("gamma"));
    // The selected row is "beta" → arrow precedes it.
    let beta_line = out.lines().find(|l| l.contains("beta")).unwrap();
    assert!(beta_line.contains(">"), "expected `>` on selected row: `{beta_line}`");
    let alpha_line = out.lines().find(|l| l.contains("alpha")).unwrap();
    assert!(!alpha_line.contains(">"), "alpha should not be selected: `{alpha_line}`");
    assert!(out.starts_with(" select profile (3 in container) "));
}

#[test]
fn default_marker_appears_on_default_alias_row() {
    let set = [nc_profile("alpha"), nc_profile("beta")];
    let out = picker_text(&set, 0, Some("beta"));
    let beta_line = out.lines().find(|l| l.contains("beta")).unwrap();
    assert!(beta_line.contains('★'), "missing star marker on default row: `{beta_line}`");
    assert!(beta_line.contains("default"), "missing `default` tag on default row: `{beta_line}`");
    let alpha_line = out.lines().find(|l| l.contains("alpha")).unwrap();
    assert!(!alpha_line.contains('★'), "non-default row should not carry the star: `{alpha_line}`");
}

#[test]
fn shows_provider_label_per_row() {
    let set = [nc_profile("alpha")];
    let out = picker_text(&set, 0, None);
    assert!(out.contains("Nextcloud"));
}

#[test]
fn welcome_menu_rows_follow_the_containers_on_disk() {
    let items = |rows: &[MenuRow]| -> Vec<WelcomeItem> {
        rows.iter()
            .filter_map(|r| match r {
                MenuRow::Entry { item, .. } => Some(*item),
                _ => None,
            })
            .collect()
    };
    let rows = WelcomeScreen::menu_rows(false, false, false, "zz-drop.example");
    assert_eq!(items(&rows), vec![WelcomeItem::Configure, WelcomeItem::Quit]);
    match &rows[1] {
        MenuRow::Entry { label, .. } => assert_eq!(label, "Create local container"),
        _ => panic!("expected the create entry"),
    }
    let rows = WelcomeScreen::menu_rows(true, true, true, "zz-drop.example");
    assert_eq!(
        items(&rows),
        vec![
            WelcomeItem::OpenLocal,
            WelcomeItem::Configure,
            WelcomeItem::OpenRemote,
            WelcomeItem::ConfigureRemote,
            WelcomeItem::SignIn,
            WelcomeItem::Quit,
        ]
    );
    let signin = rows.iter().find_map(|r| match r {
        MenuRow::Entry { item: WelcomeItem::SignIn, label, .. } => Some(label.clone()),
        _ => None,
    });
    assert_eq!(signin.as_deref(), Some("Fetch the latest container from zz-drop.example"));
    let foot: String = WelcomeScreen::footnote("~/.config/zz-drop").iter().map(|s| s.text.as_str()).collect();
    assert_eq!(foot, "profiles live in ~/.config/zz-drop. encrypted at rest.");
}

#[test]
fn welcome_menu_draws_the_items_the_cursor_visits() {
    for (local, remote, enabled) in [(false, false, false), (true, false, true), (false, true, true), (true, true, false)] {
        let mut app = App::new();
        app.local_exists = local;
        app.remote_exists = remote;
        app.remote_enabled = enabled;
        let drawn: Vec<_> = WelcomeScreen::menu_rows(local, remote, enabled, &app.server_label())
            .into_iter()
            .filter_map(|r| match r {
                MenuRow::Entry { item, .. } => Some(item),
                _ => None,
            })
            .collect();
        assert_eq!(drawn, app.welcome_items_active());
    }
}

fn text_of(lines: &[Vec<StyledSpan>]) -> String {
    flatten(lines)
}

#[test]
fn login_flow_screen_follows_the_stage() {
    let mut st = LoginFlowState::default();
    st.stage = LoginFlowStage::Initiating;
    match NextcloudLoginFlowScreen::content(&st, "https://nc.example.org") {
        LoginFlowView::Single(p) => {
            assert_eq!(p.title, " login flow ");
            assert!(text_of(&p.lines).contains("  contacting https://nc.example.org"));
        }
        _ => panic!("expected one panel"),
    }
    st.stage = LoginFlowStage::Failed("network error".into());
    match NextcloudLoginFlowScreen::content(&st, "https://nc.example.org") {
        LoginFlowView::Single(p) => {
            assert_eq!(p.accent, PanelAccent::Red);
            assert!(text_of(&p.lines).contains("  ✗ network error"));
        }
        _ => panic!("expected one panel"),
    }
    st.stage = LoginFlowStage::Polling;
    st.login_url = "https://nc.example.org/index.php/login/v2/flow/abc".into();
    st.clipboard_message = Some("copied");
    assert!(st.show_qr);
    if let LoginFlowView::Polling { left, qr, .. } = NextcloudLoginFlowScreen::content(&st, "x") {
        assert!(qr);
        assert_eq!(left.title, " authorize with phone ");
        assert!(left.lines.is_empty());
    } else {
        panic!("expected the polling view");
    }
    st.show_qr = false;
    match NextcloudLoginFlowScreen::content(&st, "https://nc.example.org") {
        LoginFlowView::Polling { left, qr, link, messages } => {
            assert!(!qr);
            assert_eq!(left.title, " open on any device ");
            assert!(text_of(&link).contains("nc.example.org  ·  press u for full URL"));
            assert_eq!(text_of(&messages), "  clipboard: copied\n");
        }
        _ => panic!("expected the polling view"),
    }
    st.show_url_modal = true;
    match NextcloudLoginFlowScreen::content(&st, "x") {
        LoginFlowView::Single(p) => {
            assert_eq!(p.title, " url detail ");
            assert!(text_of(&p.lines).contains("  https://nc.example.org/index.php/login/v2/flow/abc"));
        }
        _ => panic!("expected the URL modal"),
    }
    assert!(NextcloudLoginFlowScreen::left_pane_width("https://example.org") >= 44);
}

#[test]
fn passphrase_stage_panels() {
    assert!(ProfilePassphraseScreen::stage_panel(&PassphraseStage::Editing, "nc").is_none());
    assert!(ProfilePassphraseScreen::stage_panel(&PassphraseStage::WeakWarning, "nc").is_none());
    let p = ProfilePassphraseScreen::stage_panel(&PassphraseStage::Encrypting, "nc").unwrap();
    assert_eq!(p.title, " profile passphrase ");
    assert!(flatten(&p.lines).contains("  encrypting profile…"));
    let p = ProfilePassphraseScreen::stage_panel(&PassphraseStage::Saved("/tmp/p.zz".into()), "cloud.example.org").unwrap();
    assert_eq!(p.title, " profile saved ");
    assert_eq!(p.accent, PanelAccent::Mint);
    let text = flatten(&p.lines);
    assert!(text.contains("  /tmp/p.zz\n"));
    assert!(text.contains("  push it to cloud.example.org so it can be retrieved\n"));
    assert!(text.contains("`zz z <alias>`"));
    let p = ProfilePassphraseScreen::stage_panel(&PassphraseStage::Failed("disk full".into()), "nc").unwrap();
    assert_eq!(p.accent, PanelAccent::Red);
    assert!(flatten(&p.lines).contains("  ✗ save failed: disk full\n"));
}

#[test]
fn passphrase_match_check_rows() {
    assert_eq!(ProfilePassphraseScreen::match_check("", ""), (CheckStatus::Skip, "type a passphrase"));
    assert_eq!(ProfilePassphraseScreen::match_check("abc", ""), (CheckStatus::Skip, "type a passphrase"));
    assert_eq!(ProfilePassphraseScreen::match_check("abc", "ab"), (CheckStatus::Fail, "passphrases do not match"));
    assert_eq!(ProfilePassphraseScreen::match_check("abc", "abc"), (CheckStatus::Pass, "passphrases match"));
}

#[test]
fn passphrase_side_panel_warns() {
    let p = ProfilePassphraseScreen::side_panel(true, "nc");
    assert_eq!(p.title, " weak passphrase ");
    assert_eq!(p.accent, PanelAccent::Yellow);
    assert!(flatten(&p.lines).contains("press y to continue, n to edit."));
    let p = ProfilePassphraseScreen::side_panel(false, "cloud.example.org");
    assert_eq!(p.title, " before you continue ");
    let text = flatten(&p.lines);
    assert!(text.contains("there is no recovery."));
    assert!(text.contains("sign in to cloud.example.org afterwards"));
}
