//! The frame's layout: a one-row title bar, a one-row step band, the
//! body and a one-row key bar, or a "too small" verdict below the
//! minimum terminal size.

use vstd::prelude::*;
use ratatui::layout::Constraint::{Length, Min};
use ratatui::layout::Layout;

verus! {

pub const MIN_WIDTH: u16 = 80;
pub const MIN_HEIGHT: u16 = 24;
pub const TARGET_WIDTH: u16 = 100;
pub const TARGET_HEIGHT: u16 = 30;

/// A screen rectangle in cells.
#[derive(Clone, Copy, Debug, PartialEq, Eq, Structural)]
pub struct Rect {
    pub x: u16,
    pub y: u16,
    pub width: u16,
    pub height: u16,
}

impl Rect {
    /// A rectangle at (`x`, `y`); width and height are cut so that it
    /// ends inside the `u16` range.
    pub fn new(x: u16, y: u16, width: u16, height: u16) -> (r: Self)
        ensures
            r.x == x,
            r.y == y,
            r.width == if width > u16::MAX - x { (u16::MAX - x) as u16 } else { width },
            r.height == if height > u16::MAX - y { (u16::MAX - y) as u16 } else { height },
    {
        let max_width = u16::MAX - x;
        let max_height = u16::MAX - y;
        let width = if width > max_width {
            max_width
        } else {
            width
        };
        let height = if height > max_height {
            max_height
        } else {
            height
        };
        Rect { x, y, width, height }
    }
}

/// The four areas of a frame, and whether it is below the minimum size.
#[derive(Clone, Copy, Debug, PartialEq, Eq, Structural)]
pub struct LayoutRects {
    pub title: Rect,
    pub steps: Rect,
    pub body: Rect,
    pub keybar: Rect,
    pub too_small: bool,
}

/// The areas, as (x, y, width, height), that `ratatui`'s layout solver
/// gives for a vertical split of the rectangle (`x`, `y`, `w`, `h`) into
/// rows of length 1, 1, at least 1, and 1, in that order.
pub uninterp spec fn solved_rows(x: u16, y: u16, w: u16, h: u16) -> Seq<(u16, u16, u16, u16)>;

/// The rows a rectangle spans: its height, cut where its bottom would
/// pass the end of the `u16` range (the solver works up to the
/// rectangle's saturating bottom).
pub open spec fn rows_spanned(y: u16, h: u16) -> int {
    if h > u16::MAX - y {
        u16::MAX - y
    } else {
        h as int
    }
}

/// The frame's four rows over a rectangle spanning `rows` rows: title,
/// steps and key bar one row each at the top, second and last rows, the
/// body on all the rows between.
pub open spec fn frame_rows(x: u16, y: u16, w: u16, rows: int) -> Seq<(u16, u16, u16, u16)> {
    seq![
        (x, y, w, 1u16),
        (x, (y + 1) as u16, w, 1u16),
        (x, (y + 2) as u16, w, (rows - 3) as u16),
        (x, (y + rows - 1) as u16, w, 1u16),
    ]
}

/// Splits the rectangle with `ratatui::layout::Layout::vertical` over
/// the constraints `Length(1)`, `Length(1)`, `Min(1)`, `Length(1)` and
/// returns the four areas in order, one per constraint as the crate's
/// `split` does. Claims that they are `solved_rows` of the rectangle,
/// and, when it spans at least four rows, that they are `frame_rows`:
/// the default `Flex::Start` makes each `Length` strong, lets the
/// `Min` segment grow with medium strength toward the whole area while
/// the trailing spacer grows only with a tenth of that, so the lengths
/// are met exactly and the body takes every remaining row. The solver's
/// required constraints here only keep the areas ordered inside the
/// rectangle, which can always be met, so the `expect` in the crate's
/// `split` does not fire.
#[verifier::external_body]
fn solve_rows(x: u16, y: u16, w: u16, h: u16) -> (r: (
    (u16, u16, u16, u16),
    (u16, u16, u16, u16),
    (u16, u16, u16, u16),
    (u16, u16, u16, u16),
))
    ensures
        seq![r.0, r.1, r.2, r.3] == solved_rows(x, y, w, h),
        rows_spanned(y, h) >= 4 ==> seq![r.0, r.1, r.2, r.3] == frame_rows(x, y, w, rows_spanned(y, h)),
{
    let c = Layout::vertical([Length(1), Length(1), Min(1), Length(1)]).split(
        ratatui::layout::Rect { x, y, width: w, height: h },
    );
    (
        (c[0].x, c[0].y, c[0].width, c[0].height),
        (c[1].x, c[1].y, c[1].width, c[1].height),
        (c[2].x, c[2].y, c[2].width, c[2].height),
        (c[3].x, c[3].y, c[3].width, c[3].height),
    )
}

pub open spec fn rect_of(t: (u16, u16, u16, u16)) -> Rect {
    Rect { x: t.0, y: t.1, width: t.2, height: t.3 }
}

fn to_rect(t: (u16, u16, u16, u16)) -> (r: Rect)
    ensures
        r == rect_of(t),
{
    Rect { x: t.0, y: t.1, width: t.2, height: t.3 }
}

/// Below the minimum size every area is the whole frame.
pub open spec fn split_spec(area: Rect) -> LayoutRects {
    if area.width < MIN_WIDTH || area.height < MIN_HEIGHT {
        LayoutRects { title: area, steps: area, body: area, keybar: area, too_small: true }
    } else {
        let rows = solved_rows(area.x, area.y, area.width, area.height);
        LayoutRects {
            title: rect_of(rows[0]),
            steps: rect_of(rows[1]),
            body: rect_of(rows[2]),
            keybar: rect_of(rows[3]),
            too_small: false,
        }
    }
}

/// The frame's areas: below the minimum size the whole frame four
/// times; else title, steps and key bar one row each at the top, second
/// and last rows, and the body on the rows between.
pub fn split(area: Rect) -> (r: LayoutRects)
    ensures
        r == split_spec(area),
        !r.too_small && rows_spanned(area.y, area.height) >= 4 ==> {
            let rows = rows_spanned(area.y, area.height);
            &&& r.title == (Rect { x: area.x, y: area.y, width: area.width, height: 1 })
            &&& r.steps == (Rect { x: area.x, y: (area.y + 1) as u16, width: area.width, height: 1 })
            &&& r.body == (Rect {
                x: area.x,
                y: (area.y + 2) as u16,
                width: area.width,
                height: (rows - 3) as u16,
            })
            &&& r.keybar == (Rect { x: area.x, y: (area.y + rows - 1) as u16, width: area.width, height: 1 })
        },
{
    if area.width < MIN_WIDTH || area.height < MIN_HEIGHT {
        return LayoutRects { title: area, steps: area, body: area, keybar: area, too_small: true };
    }
    let (t, s, b, k) = solve_rows(area.x, area.y, area.width, area.height);
    LayoutRects { title: to_rect(t), steps: to_rect(s), body: to_rect(b), keybar: to_rect(k), too_small: false }
}

/// The widths of two panes side by side on a band `width` cells wide:
/// the left one `left` cells, then a gap of `gap`, the right one the
/// rest, when that leaves it at least `min_right` cells; else `None`,
/// and one pane takes the whole band.
pub open spec fn two_col_spec(width: u16, left: u16, gap: u16, min_right: u16) -> Option<(u16, u16)> {
    if left + gap + min_right <= width {
        Some((left, (width - left - gap) as u16))
    } else {
        None
    }
}

pub fn two_col(width: u16, left: u16, gap: u16, min_right: u16) -> (r: Option<(u16, u16)>)
    ensures
        r == two_col_spec(width, left, gap, min_right),
{
    if (left as u32) + (gap as u32) + (min_right as u32) <= width as u32 {
        Some((left, width - left - gap))
    } else {
        None
    }
}

} // verus!
