//! QR codes for the login URLs: which terminals get an inline image,
//! the panel size a code needs, and the text renderings (half blocks,
//! or quadrant blocks when the pane is small).

use vstd::prelude::*;
use crate::text::{chars_to_string, decimal, decimal_spec, from_str, str_eq};
use vstd::arithmetic::div_mod::lemma_fundamental_div_mod_converse;

verus! {

/// The host terminal, as far as inline images are concerned.
#[derive(Clone, Copy, Debug, PartialEq, Eq, Structural)]
pub enum TerminalKind {
    Kitty,
    WezTerm,
    Ghostty,
    Iterm2,
    AppleTerminal,
    Other,
}

/// Inline-image protocol to force on the image renderer.
#[derive(Clone, Copy, Debug, PartialEq, Eq, Structural)]
pub enum InlineProtocol {
    Kitty,
    Iterm2,
}

/// Classifies the terminal from `$TERM_PROGRAM`, `$TERM` and whether
/// `$KITTY_WINDOW_ID` and `$GHOSTTY_RESOURCES_DIR` are set.
pub open spec fn classify_spec(
    term_program: Seq<char>,
    term: Seq<char>,
    kitty_window: bool,
    ghostty_dir: bool,
) -> TerminalKind {
    if kitty_window || term == "xterm-kitty"@ {
        TerminalKind::Kitty
    } else if term_program == "WezTerm"@ {
        TerminalKind::WezTerm
    } else if term_program == "ghostty"@ || ghostty_dir {
        TerminalKind::Ghostty
    } else if term_program == "iTerm.app"@ {
        TerminalKind::Iterm2
    } else if term_program == "Apple_Terminal"@ {
        TerminalKind::AppleTerminal
    } else {
        TerminalKind::Other
    }
}

impl TerminalKind {
    pub fn classify(term_program: &str, term: &str, kitty_window: bool, ghostty_dir: bool) -> (k: Self)
        ensures
            k == classify_spec(term_program@, term@, kitty_window, ghostty_dir),
    {
        if kitty_window || str_eq(term, "xterm-kitty") {
            TerminalKind::Kitty
        } else if str_eq(term_program, "WezTerm") {
            TerminalKind::WezTerm
        } else if str_eq(term_program, "ghostty") || ghostty_dir {
            TerminalKind::Ghostty
        } else if str_eq(term_program, "iTerm.app") {
            TerminalKind::Iterm2
        } else if str_eq(term_program, "Apple_Terminal") {
            TerminalKind::AppleTerminal
        } else {
            TerminalKind::Other
        }
    }

    pub open spec fn is_inline_safe_spec(self) -> bool {
        self == TerminalKind::Kitty || self == TerminalKind::WezTerm || self == TerminalKind::Ghostty
    }

    /// Terminals known to show inline images quietly: Kitty, WezTerm
    /// and Ghostty.
    pub fn is_inline_safe(self) -> (b: bool)
        ensures
            b == self.is_inline_safe_spec(),
    {
        match self {
            TerminalKind::Kitty | TerminalKind::WezTerm | TerminalKind::Ghostty => true,
            _ => false,
        }
    }

    pub open spec fn preferred_protocol_spec(self) -> Option<InlineProtocol> {
        match self {
            TerminalKind::Kitty | TerminalKind::WezTerm | TerminalKind::Ghostty => Some(
                InlineProtocol::Kitty,
            ),
            TerminalKind::Iterm2 => Some(InlineProtocol::Iterm2),
            _ => None,
        }
    }

    /// The protocol to force, when the terminal is known.
    pub fn preferred_protocol(self) -> (p: Option<InlineProtocol>)
        ensures
            p == self.preferred_protocol_spec(),
    {
        match self {
            TerminalKind::Kitty | TerminalKind::WezTerm | TerminalKind::Ghostty => Some(
                InlineProtocol::Kitty,
            ),
            TerminalKind::Iterm2 => Some(InlineProtocol::Iterm2),
            _ => None,
        }
    }

    /// Whether inline images are attempted: on a quiet terminal, or
    /// anywhere when the operator forces them.
    pub fn inline_allowed(self, force: bool) -> (b: bool)
        ensures
            b == (force || self.is_inline_safe_spec()),
    {
        force || self.is_inline_safe()
    }
}

/// The symbol the `qrcode` crate makes for `text` at its default error
/// correction: the modules per side and the modules row by row (dark
/// is `true`), or `None` when the text does not fit in a QR code.
pub uninterp spec fn qr_symbol_of(text: Seq<char>) -> Option<(nat, Seq<bool>)>;

/// Encodes `text`'s UTF-8 bytes with `qrcode::QrCode::new` and returns
/// `width()` and `to_colors()` (dark modules as `true`). Claims that
/// the result is `qr_symbol_of(text)`, and, as the crate's source
/// shows, that a symbol is a normal QR code (21 to 177 modules per
/// side) holding `width * width` modules.
#[verifier::external_body]
fn encode_qr(text: &str) -> (r: Option<(usize, Vec<bool>)>)
    ensures
        match r {
            Some((w, m)) => {
                &&& qr_symbol_of(text@) == Some((w as nat, m@))
                &&& 21 <= w <= 177
                &&& m@.len() == w * w
            },
            None => qr_symbol_of(text@) is None,
        },
{
    match qrcode::QrCode::new(text.as_bytes()) {
        Ok(code) => Some(
            (code.width(), code.to_colors().into_iter().map(|c| c == qrcode::Color::Dark).collect()),
        ),
        Err(_) => None,
    }
}

pub open spec fn half_rows(w: nat) -> nat {
    (w + 1) / 2
}

/// Outer size of a panel hosting a half-block code of `w` modules: a
/// quiet column each side and the panel's borders across; half as many
/// rows plus the title strip and borders down.
pub open spec fn outer_size_spec(w: nat) -> (u16, u16) {
    ((w + 4) as u16, (half_rows(w) + 3) as u16)
}

/// The panel size for a code of `width` modules per side.
pub fn qr_outer_size_for_width(width: usize) -> (r: (u16, u16))
    requires
        width <= 177,
    ensures
        r == outer_size_spec(width as nat),
{
    (((width + 2) as u16) + 2, (((width + 1) / 2) as u16) + 3)
}

/// The panel size for `text`'s QR code; `None` when it cannot be
/// encoded.
pub fn qr_outer_size(text: &str) -> (r: Option<(u16, u16)>)
    ensures
        match qr_symbol_of(text@) {
            Some((w, _)) => r == Some(outer_size_spec(w)),
            None => r is None,
        },
{
    match encode_qr(text) {
        Some((w, _)) => Some(qr_outer_size_for_width(w)),
        None => None,
    }
}

/// The module at column `x`, row `y`; outside the symbol, light.
pub open spec fn module_at(m: Seq<bool>, w: int, x: int, y: int) -> bool {
    if 0 <= x < w && 0 <= y < w {
        m[y * w + x]
    } else {
        false
    }
}

/// One cell for a module above another.
pub open spec fn half_glyph(top: bool, bottom: bool) -> char {
    if top && bottom {
        '█'
    } else if top {
        '▀'
    } else if bottom {
        '▄'
    } else {
        ' '
    }
}

/// One cell for a 2×2 block of modules.
pub open spec fn quadrant_glyph(ul: bool, ur: bool, ll: bool, lr: bool) -> char {
    if ul {
        if ur {
            if ll {
                if lr {
                    '█'
                } else {
                    '▛'
                }
            } else if lr {
                '▜'
            } else {
                '▀'
            }
        } else if ll {
            if lr {
                '▙'
            } else {
                '▌'
            }
        } else if lr {
            '▚'
        } else {
            '▘'
        }
    } else if ur {
        if ll {
            if lr {
                '▟'
            } else {
                '▞'
            }
        } else if lr {
            '▐'
        } else {
            '▝'
        }
    } else if ll {
        if lr {
            '▄'
        } else {
            '▖'
        }
    } else if lr {
        '▗'
    } else {
        ' '
    }
}

/// Row `r` of the half-block rendering: module rows `2r` and `2r + 1`,
/// between quiet cells.
pub open spec fn half_line(m: Seq<bool>, w: nat, r: int) -> Seq<char> {
    seq![' '] + Seq::new(
        w,
        |x: int| half_glyph(module_at(m, w as int, x, 2 * r), module_at(m, w as int, x, 2 * r + 1)),
    ) + seq![' ']
}

/// Row `r` of the quadrant rendering: module rows `2r` and `2r + 1`,
/// two columns per cell, between quiet cells.
pub open spec fn quadrant_line(m: Seq<bool>, w: nat, r: int) -> Seq<char> {
    seq![' '] + Seq::new(
        half_rows(w),
        |c: int|
            quadrant_glyph(
                module_at(m, w as int, 2 * c, 2 * r),
                module_at(m, w as int, 2 * c + 1, 2 * r),
                module_at(m, w as int, 2 * c, 2 * r + 1),
                module_at(m, w as int, 2 * c + 1, 2 * r + 1),
            ),
    ) + seq![' ']
}

fn half_glyph_exec(top: bool, bottom: bool) -> (c: char)
    ensures
        c == half_glyph(top, bottom),
{
    if top && bottom {
        '█'
    } else if top {
        '▀'
    } else if bottom {
        '▄'
    } else {
        ' '
    }
}

fn quadrant_glyph_exec(ul: bool, ur: bool, ll: bool, lr: bool) -> (c: char)
    ensures
        c == quadrant_glyph(ul, ur, ll, lr),
{
    if ul {
        if ur {
            if ll {
                if lr {
                    '█'
                } else {
                    '▛'
                }
            } else if lr {
                '▜'
            } else {
                '▀'
            }
        } else if ll {
            if lr {
                '▙'
            } else {
                '▌'
            }
        } else if lr {
            '▚'
        } else {
            '▘'
        }
    } else if ur {
        if ll {
            if lr {
                '▟'
            } else {
                '▞'
            }
        } else if lr {
            '▐'
        } else {
            '▝'
        }
    } else if ll {
        if lr {
            '▄'
        } else {
            '▖'
        }
    } else if lr {
        '▗'
    } else {
        ' '
    }
}

fn module(m: &Vec<bool>, w: usize, x: usize, y: usize) -> (b: bool)
    requires
        w <= 177,
        m@.len() == w * w,
    ensures
        b == module_at(m@, w as int, x as int, y as int),
{
    if x < w && y < w {
        assert(y * w + x < w * w && w * w <= 177 * 177) by (nonlinear_arith)
            requires
                x < w,
                y < w,
                w <= 177,
        ;
        let i: usize = y * w + x;
        m[i]
    } else {
        false
    }
}

/// The half-block rendering of a code of `w` modules per side.
pub fn half_block_lines(m: &Vec<bool>, w: usize) -> (lines: Vec<String>)
    requires
        w <= 177,
        m@.len() == w * w,
    ensures
        lines@.len() == half_rows(w as nat),
        forall|r: int| 0 <= r < lines@.len() ==> (#[trigger] lines@[r])@ == half_line(m@, w as nat, r),
{
    let rows = (w + 1) / 2;
    let mut lines: Vec<String> = Vec::new();
    let mut r: usize = 0;
    while r < rows
        invariant
            w <= 177,
            m@.len() == w * w,
            rows == half_rows(w as nat),
            r <= rows,
            lines@.len() == r,
            forall|k: int| 0 <= k < r ==> (#[trigger] lines@[k])@ == half_line(m@, w as nat, k),
        decreases rows - r,
    {
        let mut cells: Vec<char> = Vec::new();
        cells.push(' ');
        let mut x: usize = 0;
        while x < w
            invariant
                w <= 177,
                m@.len() == w * w,
                r < rows,
                rows == half_rows(w as nat),
                x <= w,
                cells@.len() == x + 1,
                cells@[0] == ' ',
                forall|j: int|
                    0 <= j < x ==> #[trigger] cells@[j + 1] == half_glyph(
                        module_at(m@, w as int, j, 2 * r),
                        module_at(m@, w as int, j, 2 * r + 1),
                    ),
            decreases w - x,
        {
            let top = module(m, w, x, 2 * r);
            let bottom = module(m, w, x, 2 * r + 1);
            cells.push(half_glyph_exec(top, bottom));
            x = x + 1;
        }
        cells.push(' ');
        let line = chars_to_string(&cells);
        proof {
            let want = half_line(m@, w as nat, r as int);
            assert(want.len() == cells@.len());
            assert forall|j: int| 0 <= j < cells@.len() implies cells@[j] == want[j] by {
                if 1 <= j <= w {
                    assert(cells@[(j - 1) + 1] == cells@[j]);
                }
            }
            assert(line@ =~= want);
        }
        lines.push(line);
        r = r + 1;
    }
    lines
}

/// The quadrant rendering of a code of `w` modules per side.
pub fn quadrant_lines(m: &Vec<bool>, w: usize) -> (lines: Vec<String>)
    requires
        w <= 177,
        m@.len() == w * w,
    ensures
        lines@.len() == half_rows(w as nat),
        forall|r: int| 0 <= r < lines@.len() ==> (#[trigger] lines@[r])@ == quadrant_line(m@, w as nat, r),
{
    let rows = (w + 1) / 2;
    let mut lines: Vec<String> = Vec::new();
    let mut r: usize = 0;
    while r < rows
        invariant
            w <= 177,
            m@.len() == w * w,
            rows == half_rows(w as nat),
            r <= rows,
            lines@.len() == r,
            forall|k: int| 0 <= k < r ==> (#[trigger] lines@[k])@ == quadrant_line(m@, w as nat, k),
        decreases rows - r,
    {
        let mut cells: Vec<char> = Vec::new();
        cells.push(' ');
        let mut c: usize = 0;
        while c < rows
            invariant
                w <= 177,
                m@.len() == w * w,
                r < rows,
                rows == half_rows(w as nat),
                c <= rows,
                cells@.len() == c + 1,
                cells@[0] == ' ',
                forall|j: int|
                    0 <= j < c ==> #[trigger] cells@[j + 1] == quadrant_glyph(
                        module_at(m@, w as int, 2 * j, 2 * r),
                        module_at(m@, w as int, 2 * j + 1, 2 * r),
                        module_at(m@, w as int, 2 * j, 2 * r + 1),
                        module_at(m@, w as int, 2 * j + 1, 2 * r + 1),
                    ),
            decreases rows - c,
        {
            let ul = module(m, w, 2 * c, 2 * r);
            let ur = module(m, w, 2 * c + 1, 2 * r);
            let ll = module(m, w, 2 * c, 2 * r + 1);
            let lr = module(m, w, 2 * c + 1, 2 * r + 1);
            cells.push(quadrant_glyph_exec(ul, ur, ll, lr));
            c = c + 1;
        }
        cells.push(' ');
        let line = chars_to_string(&cells);
        proof {
            let want = quadrant_line(m@, w as nat, r as int);
            assert(want.len() == cells@.len());
            assert forall|j: int| 0 <= j < cells@.len() implies cells@[j] == want[j] by {
                if 1 <= j <= rows {
                    assert(cells@[(j - 1) + 1] == cells@[j]);
                }
            }
            assert(line@ =~= want);
        }
        lines.push(line);
        r = r + 1;
    }
    lines
}

/// What the QR pane shows: rendered lines, or a one-line message.
pub enum QrPlan {
    HalfBlock(Vec<String>),
    Quadrant(Vec<String>),
    Message(String),
}

pub open spec fn strings_of(v: Seq<String>) -> Seq<Seq<char>> {
    v.map_values(|s: String| s@)
}

/// What the QR pane shows, as plain text.
pub enum QrPlanView {
    HalfBlock(Seq<Seq<char>>),
    Quadrant(Seq<Seq<char>>),
    Message(Seq<char>),
}

impl View for QrPlan {
    type V = QrPlanView;

    open spec fn view(&self) -> QrPlanView {
        match self {
            QrPlan::HalfBlock(v) => QrPlanView::HalfBlock(strings_of(v@)),
            QrPlan::Quadrant(v) => QrPlanView::Quadrant(strings_of(v@)),
            QrPlan::Message(s) => QrPlanView::Message(s@),
        }
    }
}

/// The message for a pane too small for either rendering.
pub open spec fn too_small_message(w: nat, area_w: u16, area_h: u16) -> Seq<char> {
    "(qr needs "@ + decimal_spec(w + 2) + "x"@ + decimal_spec(half_rows(w)) + " half-block or "@
        + decimal_spec(half_rows(w) + 2) + "x"@ + decimal_spec(half_rows(w)) + " quadrant; this pane is "@
        + decimal_spec(area_w as nat) + "x"@ + decimal_spec(area_h as nat) + ")"@
}

/// The rendering that fits a pane of `area_w` by `area_h` cells: half
/// blocks when they fit, else quadrant blocks, else a message giving
/// both sizes.
pub open spec fn plan_spec(m: Seq<bool>, w: nat, area_w: u16, area_h: u16) -> QrPlanView {
    if area_w >= w + 2 && area_h >= half_rows(w) {
        QrPlanView::HalfBlock(Seq::new(half_rows(w), |r: int| half_line(m, w, r)))
    } else if area_w >= half_rows(w) + 2 && area_h >= half_rows(w) {
        QrPlanView::Quadrant(Seq::new(half_rows(w), |r: int| quadrant_line(m, w, r)))
    } else {
        QrPlanView::Message(too_small_message(w, area_w, area_h))
    }
}

/// The rendering of a code of `w` modules for a pane of `area_w` by
/// `area_h` cells.
pub fn qr_plan_for(m: &Vec<bool>, w: usize, area_w: u16, area_h: u16) -> (p: QrPlan)
    requires
        w <= 177,
        m@.len() == w * w,
    ensures
        p@ == plan_spec(m@, w as nat, area_w, area_h),
{
    let rows = (w + 1) / 2;
    if area_w as usize >= w + 2 && area_h as usize >= rows {
        let lines = half_block_lines(m, w);
        assert(strings_of(lines@) =~= Seq::new(half_rows(w as nat), |r: int| half_line(m@, w as nat, r)));
        return QrPlan::HalfBlock(lines);
    }
    if area_w as usize >= rows + 2 && area_h as usize >= rows {
        let lines = quadrant_lines(m, w);
        assert(strings_of(lines@) =~= Seq::new(half_rows(w as nat), |r: int| quadrant_line(m@, w as nat, r)));
        return QrPlan::Quadrant(lines);
    }
    let mut s = from_str("(qr needs ");
    s.append(decimal((w + 2) as u64).as_str());
    s.append("x");
    s.append(decimal(rows as u64).as_str());
    s.append(" half-block or ");
    s.append(decimal((rows + 2) as u64).as_str());
    s.append("x");
    s.append(decimal(rows as u64).as_str());
    s.append(" quadrant; this pane is ");
    s.append(decimal(area_w as u64).as_str());
    s.append("x");
    s.append(decimal(area_h as u64).as_str());
    s.append(")");
    QrPlan::Message(s)
}

/// What the QR pane shows for `text`: a rendering that fits, or a
/// message when the text cannot be encoded or the pane is too small.
pub fn qr_plan(text: &str, area_w: u16, area_h: u16) -> (p: QrPlan)
    ensures
        match qr_symbol_of(text@) {
            Some((w, m)) => p@ == plan_spec(m, w, area_w, area_h),
            None => p@ == QrPlanView::Message("(qr encoding failed)"@),
        },
{
    match encode_qr(text) {
        Some((w, m)) => qr_plan_for(&m, w, area_w, area_h),
        None => QrPlan::Message(from_str("(qr encoding failed)")),
    }
}

/// Pixels per module in the inline image.
pub const QR_IMAGE_SCALE: usize = 8;

/// Quiet modules around the symbol in the inline image.
pub const QR_IMAGE_QUIET: usize = 4;

/// Side in pixels of the inline image for a code of `w` modules: the
/// symbol and a quiet zone of four modules each side, eight pixels per
/// module.
pub open spec fn image_side(w: nat) -> nat {
    (w + 2 * 4) * 8
}

/// Whether pixel (`px`, `py`) of the inline image is dark.
pub open spec fn image_dark(m: Seq<bool>, w: nat, px: int, py: int) -> bool {
    module_at(m, w as int, px / 8 - 4, py / 8 - 4)
}

/// The RGBA value of a pixel: opaque black or opaque white.
pub open spec fn rgba_of(dark: bool) -> (u8, u8, u8, u8) {
    if dark {
        (0, 0, 0, 255)
    } else {
        (255, 255, 255, 255)
    }
}

/// Pixel `p` of a row-major RGBA buffer.
pub open spec fn pixel_of(b: Seq<u8>, p: int) -> (u8, u8, u8, u8) {
    (b[4 * p], b[4 * p + 1], b[4 * p + 2], b[4 * p + 3])
}

/// `b` is the inline image of the code `m` of `w` modules: row-major
/// RGBA bytes, one pixel per four bytes, each black or white as its
/// module.
pub open spec fn is_qr_image(b: Seq<u8>, m: Seq<bool>, w: nat) -> bool {
    &&& b.len() == 4 * image_side(w) * image_side(w)
    &&& forall|p: int|
        0 <= p < image_side(w) * image_side(w) ==> #[trigger] pixel_of(b, p) == rgba_of(
            image_dark(m, w, p % image_side(w) as int, p / image_side(w) as int),
        )
}

/// The inline image of a code of `w` modules, as row-major RGBA bytes.
pub fn qr_image_rgba(m: &Vec<bool>, w: usize) -> (b: Vec<u8>)
    requires
        w <= 177,
        m@.len() == w * w,
    ensures
        b@.len() == 4 * image_side(w as nat) * image_side(w as nat),
        forall|p: int|
            0 <= p < image_side(w as nat) * image_side(w as nat) ==> #[trigger] pixel_of(b@, p)
                == rgba_of(
                image_dark(m@, w as nat, p % image_side(w as nat) as int, p / image_side(w as nat) as int),
            ),
        is_qr_image(b@, m@, w as nat),
{
    let side: usize = (w + 2 * QR_IMAGE_QUIET) * QR_IMAGE_SCALE;
    assert(side * side <= 1480 * 1480) by (nonlinear_arith)
        requires
            side <= 1480,
    ;
    let ghost sd: int = side as int;
    let mut b: Vec<u8> = Vec::new();
    let mut py: usize = 0;
    while py < side
        invariant
            w <= 177,
            m@.len() == w * w,
            side == image_side(w as nat),
            sd == side,
            side * side <= 1480 * 1480,
            py <= side,
            b@.len() == 4 * (py * sd),
            forall|p: int|
                0 <= p < py * sd ==> #[trigger] pixel_of(b@, p) == rgba_of(
                    image_dark(m@, w as nat, p % sd, p / sd),
                ),
        decreases side - py,
    {
        assert(py * sd + sd == (py + 1) * sd) by (nonlinear_arith);
        assert((py + 1) * sd <= sd * sd) by (nonlinear_arith)
            requires
                py < sd,
                0 <= sd,
        ;
        let mut px: usize = 0;
        while px < side
            invariant
                w <= 177,
                m@.len() == w * w,
                side == image_side(w as nat),
                sd == side,
                side * side <= 1480 * 1480,
                py < side,
                px <= side,
                (py + 1) * sd <= sd * sd,
                py * sd + sd == (py + 1) * sd,
                b@.len() == 4 * (py * sd + px),
                forall|p: int|
                    0 <= p < py * sd + px ==> #[trigger] pixel_of(b@, p) == rgba_of(
                        image_dark(m@, w as nat, p % sd, p / sd),
                    ),
            decreases side - px,
        {
            let dark = if px >= QR_IMAGE_SCALE * QR_IMAGE_QUIET && py >= QR_IMAGE_SCALE * QR_IMAGE_QUIET {
                module(m, w, px / QR_IMAGE_SCALE - QR_IMAGE_QUIET, py / QR_IMAGE_SCALE - QR_IMAGE_QUIET)
            } else {
                false
            };
            let ghost old_b = b@;
            let ghost p: int = py * sd + px;
            proof {
                lemma_fundamental_div_mod_converse(p, sd, py as int, px as int);
                assert(dark == image_dark(m@, w as nat, px as int, py as int));
            }
            let v: u8 = if dark {
                0
            } else {
                255
            };
            b.push(v);
            b.push(v);
            b.push(v);
            b.push(255);
            proof {
                assert(pixel_of(b@, p) == rgba_of(image_dark(m@, w as nat, p % sd, p / sd)));
                assert forall|q: int| 0 <= q < p + 1 implies #[trigger] pixel_of(b@, q) == rgba_of(
                    image_dark(m@, w as nat, q % sd, q / sd),
                ) by {
                    if q < p {
                        assert(pixel_of(b@, q) == pixel_of(old_b, q));
                    }
                }
            }
            px = px + 1;
        }
        py = py + 1;
    }
    assert(4 * (sd * sd) == 4 * sd * sd) by (nonlinear_arith);
    b
}

#[verifier::external_type_specification]
#[verifier::external_body]
pub struct ExDynamicImage(image::DynamicImage);

/// What an RGBA8 `DynamicImage` holds: its width and height in pixels
/// and its raw subpixel buffer, row by row.
pub uninterp spec fn rgba_image_contents(img: image::DynamicImage) -> (u32, u32, Seq<u8>);

/// Wraps `image::ImageBuffer::from_raw` for an RGBA buffer of `side` by
/// `side` pixels and turns it into a `DynamicImage::ImageRgba8`. As the
/// crate's source shows, `from_raw` succeeds exactly when
/// `4 * side * side` fits in `usize` and the buffer holds at least that
/// many bytes, and then keeps the buffer unchanged as the image's data
/// with `side` as width and height.
#[verifier::external_body]
fn rgba_image(side: u32, bytes: Vec<u8>) -> (img: Option<image::DynamicImage>)
    ensures
        img is Some <==> (4 * side * side <= usize::MAX && 4 * side * side <= bytes@.len()),
        match img {
            Some(i) => rgba_image_contents(i) == (side, side, bytes@),
            None => true,
        },
{
    image::ImageBuffer::<image::Rgba<u8>, Vec<u8>>::from_raw(side, side, bytes).map(
        image::DynamicImage::ImageRgba8,
    )
}

/// The inline image for `text`'s QR code; `None` when it cannot be
/// encoded. Its pixels are those of `qr_image_rgba`.
pub fn build_qr_image(text: &str) -> (r: Option<image::DynamicImage>)
    ensures
        r is Some <==> qr_symbol_of(text@) is Some,
        match (r, qr_symbol_of(text@)) {
            (Some(img), Some((w, m))) => {
                let c = rgba_image_contents(img);
                &&& c.0 == image_side(w) && c.1 == image_side(w)
                &&& is_qr_image(c.2, m, w)
            },
            _ => true,
        },
{
    match encode_qr(text) {
        Some((w, m)) => {
            let side: usize = (w + 2 * QR_IMAGE_QUIET) * QR_IMAGE_SCALE;
            let bytes = qr_image_rgba(&m, w);
            assert(4 * side * side <= 4 * 1480 * 1480) by (nonlinear_arith)
                requires
                    side <= 1480,
            ;
            rgba_image(side as u32, bytes)
        },
        None => None,
    }
}

} // verus!
