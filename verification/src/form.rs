//! The small widgets as text: a labelled input field whose value box
//! scrolls to keep the cursor in view, a menu row, and the left part
//! of the title bar.

use vstd::prelude::*;
use crate::content::{StyledSpan, span, spans_view};
use crate::input::{TextInput, TextInputView};
use crate::text::{char_count, from_str};
use crate::theme::{PanelAccent, StyleRole};
use crate::widgets::{BAR_LEFT, CURSOR, FOCUS, bar_left, cursor, focus};

verus! {

/// Cells taken by the label column of a form field.
pub const FIELD_LABEL_WIDTH: u16 = 14;

/// A form field as drawn on a band of three rows: the label on the
/// middle row, then a bordered value box showing the tail of the text.
pub struct FieldText {
    /// The label, right-aligned in the label column, and one space.
    pub label: String,
    /// Mint with focus, else dim.
    pub accent: PanelAccent,
    /// Left edge of the value box, from the band's left edge.
    pub box_x: u16,
    pub box_width: u16,
    /// The end of the shown text that fits before the cursor cell.
    pub visible: String,
    pub value_role: StyleRole,
    /// The cursor glyph, drawn after the text only with focus.
    pub cursor: Option<char>,
}

/// `s` right-aligned in `w` cells (left as it is when longer).
pub open spec fn pad_left_spec(s: Seq<char>, w: nat) -> Seq<char> {
    if s.len() >= w {
        s
    } else {
        Seq::new((w - s.len()) as nat, |i: int| ' ') + s
    }
}

/// The last `n` characters of `s` (all of it when shorter).
pub open spec fn tail_spec(s: Seq<char>, n: nat) -> Seq<char> {
    if s.len() <= n {
        s
    } else {
        s.subrange(s.len() - n, s.len() as int)
    }
}

pub open spec fn sat_sub(a: int, b: int) -> nat {
    if a >= b {
        (a - b) as nat
    } else {
        0
    }
}

/// The value box's width on a band `width` cells wide: all but the
/// label column and one cell kept free on the right.
pub open spec fn field_box_width(width: u16) -> nat {
    sat_sub(width as int, FIELD_LABEL_WIDTH + 2)
}

/// How many characters fit inside the box's borders, one cell being
/// kept for the cursor.
pub open spec fn field_room(width: u16) -> nat {
    sat_sub(sat_sub(field_box_width(width) as int, 2) as int, 1)
}

/// The field for `input` labelled `label` on a band of `width` by
/// `height` cells; nothing on a band too small for it.
pub open spec fn form_field_spec(
    label: Seq<char>,
    input: TextInputView,
    focused: bool,
    colored: bool,
    width: u16,
    height: u16,
) -> Option<(Seq<char>, PanelAccent, u16, nat, Seq<char>, StyleRole, Option<char>)> {
    if width < FIELD_LABEL_WIDTH + 6 || height < 3 {
        None
    } else {
        Some(
            (
                pad_left_spec(label, (FIELD_LABEL_WIDTH - 1) as nat) + seq![' '],
                if focused { PanelAccent::Mint } else { PanelAccent::Dim },
                (FIELD_LABEL_WIDTH + 1) as u16,
                field_box_width(width),
                tail_spec(input.display(), field_room(width)),
                if focused { StyleRole::Body } else { StyleRole::DimBright },
                if focused { Some(if colored { CURSOR } else { '|' }) } else { None },
            ),
        )
    }
}

pub open spec fn field_view(f: FieldText) -> (Seq<char>, PanelAccent, u16, nat, Seq<char>, StyleRole, Option<char>) {
    (f.label@, f.accent, f.box_x, f.box_width as nat, f.visible@, f.value_role, f.cursor)
}

fn pad_left(s: &str, w: usize) -> (r: String)
    ensures
        r@ == pad_left_spec(s@, w as nat),
{
    let n = char_count(s);
    let mut out = String::new();
    if n < w {
        let mut i: usize = 0;
        while i < w - n
            invariant
                n < w,
                i <= w - n,
                out@ == Seq::new(i as nat, |k: int| ' '),
            decreases w - n - i,
        {
            crate::text::string_push(&mut out, ' ');
            i = i + 1;
            assert(out@ =~= Seq::new(i as nat, |k: int| ' '));
        }
    }
    out.append(s);
    proof {
        if n >= w {
            assert(out@ =~= s@);
        }
    }
    out
}

/// The form field for `input`; `None` when the band is narrower than
/// twenty cells or lower than three rows.
pub fn form_field(label: &str, input: &TextInput, focused: bool, colored: bool, width: u16, height: u16) -> (f: Option<
    FieldText,
>)
    ensures
        match f {
            Some(x) => form_field_spec(label@, input@, focused, colored, width, height) == Some(field_view(x)),
            None => form_field_spec(label@, input@, focused, colored, width, height) is None,
        },
{
    if width < FIELD_LABEL_WIDTH + 6 || height < 3 {
        return None;
    }
    let mut lab = pad_left(label, (FIELD_LABEL_WIDTH - 1) as usize);
    crate::text::string_push(&mut lab, ' ');
    let box_width = width - (FIELD_LABEL_WIDTH + 2);
    let inner = box_width - 2;
    let room = (inner - 1) as usize;
    let shown = input.display_text();
    let n = char_count(shown.as_str());
    let visible = if n <= room {
        shown
    } else {
        from_str(shown.as_str().substring_char(n - room, n))
    };
    let f = FieldText {
        label: lab,
        accent: if focused { PanelAccent::Mint } else { PanelAccent::Dim },
        box_x: FIELD_LABEL_WIDTH + 1,
        box_width,
        visible,
        value_role: if focused { StyleRole::Body } else { StyleRole::DimBright },
        cursor: if focused { Some(cursor(colored)) } else { None },
    };
    assert(field_view(f).0 =~= form_field_spec(label@, input@, focused, colored, width, height).unwrap().0);
    assert(field_view(f).4 =~= form_field_spec(label@, input@, focused, colored, width, height).unwrap().4);
    Some(f)
}

/// A menu row: an arrow on the focused row, the label (dim when
/// disabled, bright with focus), and the hint after three spaces.
pub open spec fn nav_row_spec(colored: bool, focused: bool, label: Seq<char>, hint: Option<Seq<char>>, disabled: bool) -> Seq<
    (Seq<char>, StyleRole),
> {
    seq![
        if focused {
            ("  "@ + seq![if colored { FOCUS } else { '>' }] + " "@, StyleRole::AccentBold)
        } else {
            ("    "@, StyleRole::Dim)
        },
        (label, if disabled {
            StyleRole::Dim
        } else if focused {
            StyleRole::Header
        } else {
            StyleRole::Body
        }),
    ] + match hint {
        Some(h) => seq![("   "@ + h, StyleRole::Dim)],
        None => Seq::empty(),
    }
}

pub open spec fn opt_seq(h: Option<&str>) -> Option<Seq<char>> {
    match h {
        Some(s) => Some(s@),
        None => None,
    }
}

/// The spans of a menu row.
pub fn nav_row(colored: bool, focused: bool, label: &str, hint: Option<&str>, disabled: bool) -> (v: Vec<StyledSpan>)
    ensures
        spans_view(v@) == nav_row_spec(colored, focused, label@, opt_seq(hint), disabled),
{
    let mut v: Vec<StyledSpan> = Vec::new();
    if focused {
        let mut a = from_str("  ");
        crate::text::string_push(&mut a, focus(colored));
        a.append(" ");
        assert(a@ =~= "  "@ + seq![if colored { FOCUS } else { '>' }] + " "@);
        v.push(StyledSpan { text: a, role: StyleRole::AccentBold });
    } else {
        v.push(span("    ", StyleRole::Dim));
    }
    let role = if disabled {
        StyleRole::Dim
    } else if focused {
        StyleRole::Header
    } else {
        StyleRole::Body
    };
    v.push(span(label, role));
    let ghost head = spans_view(v@);
    assert(head =~= nav_row_spec(colored, focused, label@, None, disabled));
    match hint {
        Some(h) => {
            let mut t = from_str("   ");
            t.append(h);
            v.push(StyledSpan { text: t, role: StyleRole::Dim });
            assert(spans_view(v@) =~= head.push(("   "@ + h@, StyleRole::Dim)));
        },
        None => {},
    }
    assert(spans_view(v@) =~= nav_row_spec(colored, focused, label@, opt_seq(hint), disabled));
    v
}

/// The left part of the title bar: the bar glyph, the wordmark and
/// the breadcrumb.
pub open spec fn title_spans_spec(colored: bool, breadcrumb: Seq<char>) -> Seq<(Seq<char>, StyleRole)> {
    seq![
        (seq![if colored { BAR_LEFT } else { '|' }] + " "@, StyleRole::AccentBold),
        ("zz-tui"@, StyleRole::Header),
        ("  ›  "@, StyleRole::Dim),
        (breadcrumb, StyleRole::Header),
    ]
}

/// The spans of the title bar's left part.
pub fn title_spans(colored: bool, breadcrumb: &str) -> (v: Vec<StyledSpan>)
    ensures
        spans_view(v@) == title_spans_spec(colored, breadcrumb@),
{
    let mut v: Vec<StyledSpan> = Vec::new();
    let mut b = String::new();
    crate::text::string_push(&mut b, bar_left(colored));
    b.append(" ");
    assert(b@ =~= seq![if colored { BAR_LEFT } else { '|' }] + " "@);
    v.push(StyledSpan { text: b, role: StyleRole::AccentBold });
    v.push(span("zz-tui", StyleRole::Header));
    v.push(span("  ›  ", StyleRole::Dim));
    v.push(span(breadcrumb, StyleRole::Header));
    assert(spans_view(v@) =~= title_spans_spec(colored, breadcrumb@));
    v
}

} // verus!
