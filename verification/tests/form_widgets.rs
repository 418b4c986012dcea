use zz_drop_tui::form::{form_field, nav_row, title_spans};
use zz_drop_tui::input::TextInput;
use zz_drop_tui::theme::{PanelAccent, StyleRole};
use zz_drop_tui::widgets::AgentPill;

fn joined(v: &[zz_drop_tui::content::StyledSpan]) -> String {
    v.iter().map(|s| s.text.as_str()).collect()
}

/// The middle row of a field band as text: label, left border, shown
/// value, cursor.
fn middle_row(label: &str, input: &TextInput, focused: bool, width: u16) -> String {
    let f = form_field(label, input, focused, false, width, 3).expect("band is large enough");
    let mut s = f.label.clone();
    s.push('|');
    s.push_str(&f.visible);
    if let Some(c) = f.cursor {
        s.push(c);
    }
    s
}

#[test]
fn renders_label_and_value() {
    let mut input = TextInput::new();
    input.set_value("hello");
    let s = middle_row("server URL", &input, true, 60);
    assert!(s.contains("server URL"), "got `{s}`");
    assert!(s.contains("hello"), "got `{s}`");
}

#[test]
fn long_value_does_not_overflow_right_border() {
    let mut input = TextInput::new();
    input.set_value(&"x".repeat(200));
    let f = form_field("url", &input, true, false, 30, 3).unwrap();
    // The box ends before the last column; the text and the cursor end
    // before the box's right border.
    let right_border = (f.box_x + f.box_width - 1) as usize;
    assert!(right_border < 29, "value box reaches the last column");
    let last_text_cell = f.box_x as usize + 1 + f.visible.chars().count();
    assert!(last_text_cell < right_border, "value bled past right border");
    assert!(f.visible.chars().all(|c| c == 'x'));
    assert!(!f.visible.is_empty());
}

#[test]
fn masked_input_shows_stars() {
    let mut input = TextInput::masked();
    input.set_value("topsecret");
    let s = middle_row("passphrase", &input, true, 50);
    assert!(s.contains("*********"), "got `{s}`");
    assert!(!s.contains("topsecret"));
}

#[test]
fn full_borders_drawn_on_top_and_bottom_rows() {
    let mut input = TextInput::new();
    input.set_value("v");
    let f = form_field("url", &input, true, false, 60, 3).unwrap();
    // The value box's top-left corner is at x = 15 and spans the band.
    assert_eq!(f.box_x, 15);
    assert_eq!(f.box_width, 44);
    assert_eq!(f.accent, PanelAccent::Mint);
}

#[test]
fn field_on_a_small_band_is_not_drawn() {
    let input = TextInput::new();
    assert!(form_field("url", &input, true, false, 19, 3).is_none());
    assert!(form_field("url", &input, true, false, 60, 2).is_none());
    let f = form_field("url", &input, false, false, 20, 3).unwrap();
    assert_eq!(f.label, "          url ");
    assert_eq!(f.value_role, StyleRole::DimBright);
    assert!(f.cursor.is_none());
}

#[test]
fn long_field_keeps_the_tail() {
    let mut input = TextInput::new();
    input.set_value("abcdefghijklmnopqrstuvwxyz");
    // 30 cells: box of 14, 12 inside, 11 before the cursor cell.
    let f = form_field("url", &input, true, true, 30, 3).unwrap();
    assert_eq!(f.visible, "pqrstuvwxyz");
    assert_eq!(f.cursor, Some('▎'));
}

#[test]
fn renders_wordmark_and_breadcrumb() {
    let mut s = joined(&title_spans(false, "welcome"));
    s.push_str(&AgentPill::NoProfile.chip_text(false));
    assert!(s.contains("zz-tui"), "got `{s}`");
    assert!(s.contains("welcome"));
    assert!(s.contains("no profile"));
}

#[test]
fn focused_renders_arrow() {
    let s = joined(&nav_row(false, true, "Configure", None, false));
    // ASCII fallback
    assert!(s.contains('>'), "got `{s}`");
    assert!(s.contains("Configure"));
}

#[test]
fn nav_row_styles() {
    let v = nav_row(true, false, "Open", Some("local"), true);
    assert_eq!(joined(&v), "    Open   local");
    assert_eq!(v[1].role, StyleRole::Dim);
    let v = nav_row(true, true, "Open", None, false);
    assert_eq!(joined(&v), "  ▶ Open");
    assert_eq!(v[1].role, StyleRole::Header);
}
