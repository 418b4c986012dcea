use zz_drop_tui::app::{App, ProfileSource};
use zz_drop_tui::content::frame_header;
use zz_drop_tui::input::TextInput;
use zz_drop_tui::layout::{split, two_col, Rect};
use zz_drop_tui::profile::{ProfileKek, ProfileSet};
use zz_drop_tui::qr::{build_qr_image, qr_image_rgba, qr_outer_size};
use zz_drop_tui::screens::{NextcloudLoginFlowScreen, Screen};
use zz_drop_tui::theme::{EnvLookup, MockEnv, Theme};
use zz_drop_tui::widgets::CheckStatus;
use zz_drop_tui::wizard::{ManageStage, WelcomeItem, WizardMode};

#[test]
fn inline_image_holds_the_code_pixels() {
    let text = "https://example.org/login";
    let img = build_qr_image(text).unwrap();
    let rgba = img.to_rgba8();
    let (w, _) = qr_outer_size(text).unwrap();
    let modules = (w - 4) as usize;
    assert_eq!(rgba.width() as usize, (modules + 8) * 8);
    // The top-left corner is quiet (white); the finder pattern starts
    // four modules in and is dark.
    assert_eq!(rgba.get_pixel(0, 0).0, [255, 255, 255, 255]);
    assert_eq!(rgba.get_pixel(32, 32).0, [0, 0, 0, 255]);
    let all_modules = vec![true; modules * modules];
    assert_ne!(rgba.as_raw(), &qr_image_rgba(&all_modules, modules));
}

#[test]
fn frame_rows_at_every_size_above_the_minimum() {
    for (w, h) in [(80u16, 24u16), (100, 30), (200, 60)] {
        let r = split(Rect::new(3, 5, w, h));
        assert!(!r.too_small);
        assert_eq!(r.title, Rect::new(3, 5, w, 1));
        assert_eq!(r.steps, Rect::new(3, 6, w, 1));
        assert_eq!(r.body, Rect::new(3, 7, w, h - 3));
        assert_eq!(r.keybar, Rect::new(3, 5 + h - 1, w, 1));
    }
}

#[test]
fn frame_header_breadcrumb_and_steps() {
    let mut app = App::new();
    let (crumb, steps) = frame_header(&app);
    assert_eq!(crumb, "welcome");
    assert_eq!(steps.map(|s| s.len()), Some(8));

    app.screen = Screen::TestUpload;
    app.test_upload_back = Some(Screen::ProfileManage);
    let (crumb, steps) = frame_header(&app);
    assert_eq!(crumb, "manage › probe");
    assert!(steps.is_none());

    // A manage-screen origin elsewhere does not change the crumb.
    app.screen = Screen::Collision;
    let (crumb, steps) = frame_header(&app);
    assert_ne!(crumb, "manage › probe");
    assert_eq!(steps.map(|s| s.len()), Some(8));

    app.screen = Screen::ProfileManage;
    app.test_upload_back = None;
    assert!(frame_header(&app).1.is_none());

    app.wizard_mode = WizardMode::AddInnerProfile;
    app.screen = Screen::Provider;
    let (_, steps) = frame_header(&app);
    let steps = steps.unwrap();
    assert_eq!(steps.len(), 6);
    assert_eq!(steps[0].0, "provider");
    app.screen = Screen::Welcome;
    assert!(frame_header(&app).1.is_none());
}

#[test]
fn typing_at_the_end_appends_and_backspace_undoes_it() {
    let mut t = TextInput::masked();
    for c in ['s', 'e', 'c'] {
        t.push_char(c);
    }
    assert_eq!(t.value(), "sec");
    assert!(t.is_masked());
    t.set_value("日本");
    t.push_char('語');
    assert_eq!(t.value(), "日本語");
    t.backspace();
    assert_eq!(t.value(), "日本");
    t.backspace();
    t.backspace();
    t.backspace();
    assert_eq!(t.value(), "");
}

#[test]
fn next_and_previous_undo_each_other() {
    let menu = [WelcomeItem::OpenLocal, WelcomeItem::Configure, WelcomeItem::Quit];
    for x in menu {
        assert_eq!(x.next_in(&menu).previous_in(&menu), x);
        assert_eq!(x.previous_in(&menu).next_in(&menu), x);
    }
}

#[test]
fn empty_container_is_refused_on_unlock() {
    let mut app = App::new();
    app.screen = Screen::ProfileUnlock;
    app.unlock_source = ProfileSource::Local;
    app.manage_stage = ManageStage::Unlocking;
    let kek = ProfileKek::from_parts(vec![0u8; 32], vec![0u8; 16]);
    app.apply_unlock_loaded(ProfileSet::new(), kek, None);
    assert_eq!(app.manage_stage, ManageStage::Locked);
    assert_eq!(app.manage_unlock_error.as_deref(), Some("profile container is empty"));
    assert_eq!(app.screen, Screen::ProfileUnlock);
}

#[test]
fn two_panes_only_when_the_right_one_fits() {
    assert_eq!(two_col(100, 56, 2, 30), Some((56, 42)));
    assert_eq!(two_col(88, 56, 2, 30), Some((56, 30)));
    assert_eq!(two_col(87, 56, 2, 30), None);
    assert_eq!(two_col(80, 57, 2, 22), None);
    assert_eq!(two_col(81, 57, 2, 22), Some((57, 22)));
}

#[test]
fn login_flow_status_checks() {
    assert_eq!(
        NextcloudLoginFlowScreen::status_checks(),
        vec![(CheckStatus::Pass, "poll endpoint", "reachable"), (CheckStatus::Busy, "user grant", "awaiting")]
    );
}

#[test]
fn setting_a_variable_again_replaces_it() {
    let env = MockEnv::empty().with("NO_COLOR", "1").with("NO_COLOR", "");
    assert_eq!(env.get("NO_COLOR").as_deref(), Some(""));
    assert_eq!(env.get("FORCE_COLOR"), None);
    assert!(Theme::from_parts(&MockEnv::empty(), true).colored);
}
