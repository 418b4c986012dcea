use zz_drop_tui::widgets::{
    block_full, block_light, check_row_text, keybar_text, meter, pill_placement, steps_text,
    AgentPill, CheckStatus, KeyHint, MeterLevel, StepState,
};

/// The meter line as the bar widget lays it out, without colour: the
/// filled and empty cells, a space and the label.
fn line(score: u8, max: u8, bar_w: u16, label: &str) -> String {
    let (filled, empty, _) = meter(score, max, bar_w);
    let mut s = String::new();
    for _ in 0..filled {
        s.push(block_full(false));
    }
    for _ in 0..empty {
        s.push(block_light(false));
    }
    s.push(' ');
    s.push_str(label);
    s
}

#[test]
fn full_bar_at_max_score() {
    // ASCII fallback uses '#' for filled, '.' for empty
    let s = line(4, 4, 8, "strong");
    assert!(s.starts_with("########"), "got `{s}`");
    assert!(s.contains("strong"));
    assert_eq!(meter(4, 4, 8).2, MeterLevel::Good);
}

#[test]
fn half_bar_at_mid_score() {
    let s = line(2, 4, 8, "fair");
    assert!(s.starts_with("####...."), "got `{s}`");
    assert_eq!(meter(2, 4, 8).2, MeterLevel::Fair);
}

#[test]
fn empty_bar_at_zero() {
    let s = line(0, 4, 8, "empty");
    assert!(s.starts_with("........"), "got `{s}`");
    assert_eq!(meter(0, 4, 8).2, MeterLevel::Poor);
}

#[test]
fn ok_row_contains_label() {
    let s = check_row_text(false, CheckStatus::Pass, "DNS", Some("ok"));
    assert!(s.contains("DNS"));
    assert!(s.contains("ok"));
}

#[test]
fn err_row_contains_x_glyph() {
    let s = check_row_text(false, CheckStatus::Fail, "auth", None);
    // ASCII fallback (theme is no-color in this test)
    assert!(s.contains('x') || s.contains('✗'));
}

#[test]
fn renders_chip_and_label() {
    let items = vec![KeyHint::new("n", "next"), KeyHint::new("q", "quit")];
    let s = keybar_text(&items);
    assert!(s.contains(" n "), "key chip missing in `{s}`");
    assert!(s.contains("next"));
    assert!(s.contains(" q "));
    assert!(s.contains("quit"));
}

#[test]
fn empty_items_renders_nothing() {
    assert_eq!(keybar_text(&Vec::new()), "");
}

#[test]
fn renders_all_labels_in_order() {
    let labels = vec![
        ("welcome", StepState::Past),
        ("provider", StepState::Active),
        ("server", StepState::Future),
    ];
    let s = steps_text(&labels, false);
    assert!(s.contains("welcome"));
    assert!(s.contains("provider"));
    assert!(s.contains("server"));
    // ASCII fallback dots: past=*, active=@, future=o
    assert!(s.contains("* welcome"), "got `{s}`");
    assert!(s.contains("@ provider"), "got `{s}`");
    assert!(s.contains("o server"), "got `{s}`");
    assert!(s.find("welcome") < s.find("provider") && s.find("provider") < s.find("server"));
}

#[test]
fn renders_no_profile_pill_right_aligned() {
    let chip = AgentPill::NoProfile.chip_text(false);
    let (x, w) = pill_placement(60, 60, 1, chip.chars().count()).unwrap();
    assert!(w > 0);
    assert_eq!(x + w, 60);
    assert!(chip.ends_with("no profile  "), "got `{chip}`");
}

#[test]
fn renders_remote_pill_with_server_and_alias() {
    let pill = AgentPill::Remote { server: "zz-drop.net".into(), alias: "casa-nc".into() };
    let chip = pill.chip_text(false);
    assert!(chip.contains("remote · zz-drop.net · casa-nc"), "got `{chip}`");
}

#[test]
fn renders_local_pill_with_alias() {
    let chip = AgentPill::Local { alias: "lavoro".into() }.chip_text(false);
    assert!(chip.contains("local · lavoro"), "got `{chip}`");
}

#[test]
fn renders_local_pill_without_alias_when_empty() {
    let chip = AgentPill::Local { alias: String::new() }.chip_text(false);
    // No trailing separator when alias is empty.
    assert!(!chip.contains("local ·"), "got `{chip}`");
    assert!(chip.contains("local"), "got `{chip}`");
}

#[test]
fn returns_zero_on_tiny_area() {
    let chip = AgentPill::Local { alias: "x".into() }.chip_text(false);
    assert_eq!(pill_placement(3, 3, 1, chip.chars().count()), None);
}
