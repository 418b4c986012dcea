use zz_drop_tui::app::ProfileSource;
use zz_drop_tui::content::StyledSpan;
use zz_drop_tui::screens::{
    AuthFocus, CollisionScreen, LoginTotpScreen, ProfileUnlockScreen, NextcloudAuthScreen, ProviderScreen, SetupDropboxScreen,
    TestUploadScreen,
};
use zz_drop_tui::setup_panels::{ChoiceRow, DropboxView};
use zz_drop_tui::theme::{PanelAccent, StyleRole};
use zz_drop_tui::widgets::CheckStatus;
use zz_drop_tui::wizard::{
    AuthKind, CollisionChoice, ManageStage, PushStage, DropboxSetupStage, DropboxSetupState, ProbeProgress,
    ProbeStepStatus, ProviderKind, TestOutcome,
};

fn flatten(lines: &[Vec<StyledSpan>]) -> String {
    let mut out = String::new();
    for l in lines {
        for s in l {
            out.push_str(&s.text);
        }
        out.push('\n');
    }
    out
}

fn marked(rows: &[ChoiceRow]) -> Vec<(&'static str, bool, bool, bool)> {
    rows.iter().map(|r| (r.label, r.focused, r.selected, r.disabled)).collect()
}

fn single(v: DropboxView) -> (String, PanelAccent, String) {
    match v {
        DropboxView::Single(p) => (p.title.to_string(), p.accent, flatten(&p.lines)),
        DropboxView::AwaitingPaste { .. } => panic!("expected one panel"),
    }
}

#[test]
fn provider_rows_mark_the_selection() {
    let rows = ProviderScreen::rows(ProviderKind::OneDrive);
    assert_eq!(
        marked(&rows),
        vec![
            ("Nextcloud · WebDAV", false, false, false),
            ("Google Drive · OAuth", false, false, false),
            ("OneDrive · OAuth", true, true, false),
            ("Dropbox · OAuth", false, false, false),
            ("Proton Drive", false, false, true),
            ("S3 / R2", false, false, true),
        ]
    );
    assert_eq!(rows[3].hint, "paste-code · App folder");
}

#[test]
fn collision_rows_and_preview_follow_the_choice() {
    let rows = CollisionScreen::rows(CollisionChoice::Fail);
    assert_eq!(
        marked(&rows),
        vec![("Rename", false, false, false), ("Overwrite", false, false, false), ("Fail", true, true, false)]
    );
    assert_eq!(
        flatten(&CollisionScreen::preview(CollisionChoice::Rename)),
        "  $ zz readme.md\n    ↻ rename → /zz/readme (1).md\n    ✓ uploaded · 2 KiB\n"
    );
    let p = CollisionScreen::preview(CollisionChoice::Overwrite);
    assert_eq!(p[1][0].role, StyleRole::Warn);
    assert!(flatten(&p).contains("→ /zz/readme.md (replaces existing)"));
    assert!(flatten(&CollisionScreen::preview(CollisionChoice::Fail)).contains("exit code 9"));
}

#[test]
fn auth_method_rows_and_side_panel() {
    let rows = NextcloudAuthScreen::method_rows(AuthKind::LoginFlow, AuthFocus::KindSelector);
    assert_eq!(
        marked(&rows),
        vec![("App Password", false, false, false), ("Login Flow v2", true, true, false), ("Basic Auth", false, false, true)]
    );
    let rows = NextcloudAuthScreen::method_rows(AuthKind::AppPassword, AuthFocus::Username);
    assert_eq!(marked(&rows)[0], ("App Password", false, true, false));
    assert!(NextcloudAuthScreen::shows_fields(AuthKind::AppPassword));
    assert!(!NextcloudAuthScreen::shows_fields(AuthKind::LoginFlow));
    let p = NextcloudAuthScreen::side_panel(AuthKind::LoginFlow);
    assert_eq!(p.title, " Login Flow v2 ");
    assert!(flatten(&p.lines).contains("  • headless ok\n"));
    let p = NextcloudAuthScreen::side_panel(AuthKind::AppPassword);
    assert_eq!(p.title, " app password ");
    assert!(flatten(&p.lines).contains("  encrypted profile.zz.\n"));
}

#[test]
fn probe_panel_text() {
    assert_eq!(TestUploadScreen::intro(true, None), "  probing the remote folder…");
    assert_eq!(TestUploadScreen::intro(false, None), "  press enter to probe the remote folder.");
    assert_eq!(TestUploadScreen::intro(false, Some(&TestOutcome::Passed)), "  ready · press enter to continue.");
    let failed = TestOutcome::Failed("403 forbidden".into());
    assert_eq!(TestUploadScreen::intro(false, Some(&failed)), "  press enter to retry.");
    assert!(TestUploadScreen::footer(true, Some(&failed)).is_none());
    assert!(TestUploadScreen::footer(false, None).is_none());
    let f = TestUploadScreen::footer(false, Some(&failed)).unwrap();
    assert_eq!((f.text.as_str(), f.role), ("    403 forbidden", StyleRole::Danger));
    let f = TestUploadScreen::footer(false, Some(&TestOutcome::Passed)).unwrap();
    assert_eq!((f.text.as_str(), f.role), ("    ok", StyleRole::Good));
    let progress = ProbeProgress {
        ensure: ProbeStepStatus::Done,
        marker: ProbeStepStatus::Busy,
        upload: ProbeStepStatus::Pending,
        cleanup: ProbeStepStatus::Failed,
    };
    let rows = TestUploadScreen::check_rows(&progress);
    let statuses: Vec<CheckStatus> = rows.iter().map(|r| r.0).collect();
    assert_eq!(statuses, vec![CheckStatus::Pass, CheckStatus::Busy, CheckStatus::Skip, CheckStatus::Fail]);
    assert_eq!(rows[0].1, "ensure folder");
    assert_eq!(rows[3].2, "DELETE");
}

#[test]
fn dropbox_screen_follows_the_stage() {
    let mut s = DropboxSetupState::default();
    let (title, accent, text) = single(SetupDropboxScreen::content(&s));
    assert_eq!((title.as_str(), accent), (" paste-code ", PanelAccent::Mint));
    assert!(text.contains("preparing Dropbox authorization URL…"));

    s.stage = DropboxSetupStage::AwaitingPaste;
    s.authorize_url = "https://www.dropbox.com/oauth2/authorize?client_id=abc".into();
    match SetupDropboxScreen::content(&s) {
        DropboxView::AwaitingPaste { panel, qr, hint } => {
            assert!(qr);
            assert!(flatten(&panel.lines).contains("  https://www.dropbox.com/oauth2/authorize?client_id=abc\n"));
            assert_eq!(hint[0].text, "  type or ctrl-v to paste, then press ↵ to exchange.");
        }
        DropboxView::Single(_) => panic!("expected the paste view"),
    }
    s.pasted_code.set_value("valid-code-12345");
    match SetupDropboxScreen::content(&s) {
        DropboxView::AwaitingPaste { hint, .. } => {
            assert_eq!(hint[0].text, "  press ↵ to exchange the code for tokens.")
        }
        DropboxView::Single(_) => panic!("expected the paste view"),
    }

    s.stage = DropboxSetupStage::Done;
    s.user_email = "alice@example.org".into();
    let (title, _, text) = single(SetupDropboxScreen::content(&s));
    assert_eq!(title, " dropbox ");
    assert!(text.contains("  account: alice@example.org\n"));
    assert!(text.contains("  folder:  Apps/zz-drop/zz-drop\n"));

    s.stage = DropboxSetupStage::Failed("expired".into());
    let (_, accent, text) = single(SetupDropboxScreen::content(&s));
    assert_eq!(accent, PanelAccent::Red);
    assert!(text.contains("  reason: expired\n"));

    s.show_url_modal = true;
    let (title, _, text) = single(SetupDropboxScreen::content(&s));
    assert_eq!(title, " authorize url ");
    assert!(text.contains("  https://www.dropbox.com/oauth2/authorize?client_id=abc\n"));

    assert!(SetupDropboxScreen::qr_pane_width(&s.authorize_url) >= 44);
}

#[test]
fn unlock_screen_lines() {
    assert_eq!(ProfileUnlockScreen::panel_title(ProfileSource::Local), " open local profile ");
    assert_eq!(ProfileUnlockScreen::panel_title(ProfileSource::Remote), " open synced profile ");
    assert!(ProfileUnlockScreen::intro(ProfileSource::Remote).contains("when this alias was uploaded"));
    let l = ProfileUnlockScreen::status_line(ManageStage::Unlocking, Some("wrong passphrase"));
    assert_eq!((l.text.as_str(), l.role), ("  …  decrypting (Argon2id, ~1 s)", StyleRole::Cyan));
    let l = ProfileUnlockScreen::status_line(ManageStage::Locked, Some("wrong passphrase"));
    assert_eq!((l.text.as_str(), l.role), ("  ✗ wrong passphrase", StyleRole::Danger));
    let l = ProfileUnlockScreen::status_line(ManageStage::Locked, None);
    assert_eq!(l.role, StyleRole::Dim);
}

#[test]
fn totp_status_lines() {
    let l = LoginTotpScreen::status_line(&PushStage::TotpSending);
    assert_eq!((l.text.as_str(), l.role), ("  …  verifying code", StyleRole::Cyan));
    let l = LoginTotpScreen::status_line(&PushStage::Failed("invalid code".into()));
    assert_eq!((l.text.as_str(), l.role), ("  ✗ invalid code", StyleRole::Danger));
    let l = LoginTotpScreen::status_line(&PushStage::TotpForm);
    assert_eq!(l.text, "  recovery codes are 10-character; TOTP codes are 6 digits.");
}

/// The provider screen's text: the rows, then the hint for the focused
/// provider.
fn provider_text(selected: ProviderKind) -> String {
    let mut out = String::new();
    for r in ProviderScreen::rows(selected) {
        out.push_str(r.label);
        out.push_str("   ");
        out.push_str(r.hint);
        out.push('\n');
    }
    out.push_str(&flatten(&ProviderScreen::context_lines(selected)));
    out
}

#[test]
fn onedrive_focus_shows_publisher_warning() {
    let s = provider_text(ProviderKind::OneDrive);
    assert!(s.contains("OneDrive"), "OneDrive row missing:\n{s}");
    assert!(s.contains("own client_id"), "OneDrive warning hint missing when OneDrive is focused:\n{s}");
    assert!(s.contains("docs/onedrive.md"), "OneDrive doc pointer missing:\n{s}");
}

#[test]
fn nextcloud_focus_hides_onedrive_warning() {
    let s = provider_text(ProviderKind::Nextcloud);
    assert!(!s.contains("own client_id"), "OneDrive warning leaked into Nextcloud focus:\n{s}");
}

#[test]
fn google_drive_focus_hides_onedrive_warning() {
    let s = provider_text(ProviderKind::GoogleDrive);
    assert!(!s.contains("own client_id"), "OneDrive warning leaked into Google Drive focus:\n{s}");
}

#[test]
fn dropbox_focus_hides_onedrive_warning() {
    let s = provider_text(ProviderKind::Dropbox);
    assert!(!s.contains("own client_id"), "OneDrive warning leaked into Dropbox focus:\n{s}");
}
