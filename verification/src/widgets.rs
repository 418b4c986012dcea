//! Content of the small TUI primitives: key hints, the agent pill,
//! stepper dots, check rows and glyph choices. Drawing them into a
//! terminal buffer is the driver's job.

use vstd::prelude::*;
use vstd::string::*;
use crate::text::{from_str, string_push};
use crate::theme::{StyleRole, StyleSpec, Theme, role_style};

verus! {

// ─── glyphs ─────────────────────────────────────────────────────────

pub const BAR_LEFT: char = '▍';
pub const CURSOR: char = '▎';
pub const FOCUS: char = '▶';
pub const BLOCK_FULL: char = '█';
pub const BLOCK_LIGHT: char = '░';
pub const HALF_TOP: char = '▀';
pub const HALF_BOT: char = '▄';
pub const CHECK_OK: char = '✔';
pub const CHECK_WARN: char = '!';
pub const CHECK_ERR: char = '✗';
pub const CHECK_SKIP: char = '–';
pub const CHECK_BUSY: char = '◌';

/// Focus arrow: Unicode when colour is on, ASCII otherwise.
pub fn focus(colored: bool) -> (c: char)
    ensures
        c == if colored { FOCUS } else { '>' },
{
    if colored { FOCUS } else { '>' }
}

pub fn cursor(colored: bool) -> (c: char)
    ensures
        c == if colored { CURSOR } else { '|' },
{
    if colored { CURSOR } else { '|' }
}

pub fn bar_left(colored: bool) -> (c: char)
    ensures
        c == if colored { BAR_LEFT } else { '|' },
{
    if colored { BAR_LEFT } else { '|' }
}

pub fn block_full(colored: bool) -> (c: char)
    ensures
        c == if colored { BLOCK_FULL } else { '#' },
{
    if colored { BLOCK_FULL } else { '#' }
}

pub fn block_light(colored: bool) -> (c: char)
    ensures
        c == if colored { BLOCK_LIGHT } else { '.' },
{
    if colored { BLOCK_LIGHT } else { '.' }
}

#[derive(Clone, Copy, Debug, PartialEq, Eq, Structural)]
pub enum CheckStatusGlyph {
    Pass,
    Warn,
    Fail,
    Skip,
    Busy,
}

pub open spec fn check_glyph_spec(colored: bool, status: CheckStatusGlyph) -> char {
    if colored {
        match status {
            CheckStatusGlyph::Pass => CHECK_OK,
            CheckStatusGlyph::Warn => CHECK_WARN,
            CheckStatusGlyph::Fail => CHECK_ERR,
            CheckStatusGlyph::Skip => CHECK_SKIP,
            CheckStatusGlyph::Busy => CHECK_BUSY,
        }
    } else {
        match status {
            CheckStatusGlyph::Pass => 'v',
            CheckStatusGlyph::Warn => '!',
            CheckStatusGlyph::Fail => 'x',
            CheckStatusGlyph::Skip => '-',
            CheckStatusGlyph::Busy => '*',
        }
    }
}

pub fn check_glyph(colored: bool, status: CheckStatusGlyph) -> (c: char)
    ensures
        c == check_glyph_spec(colored, status),
{
    if colored {
        match status {
            CheckStatusGlyph::Pass => CHECK_OK,
            CheckStatusGlyph::Warn => CHECK_WARN,
            CheckStatusGlyph::Fail => CHECK_ERR,
            CheckStatusGlyph::Skip => CHECK_SKIP,
            CheckStatusGlyph::Busy => CHECK_BUSY,
        }
    } else {
        match status {
            CheckStatusGlyph::Pass => 'v',
            CheckStatusGlyph::Warn => '!',
            CheckStatusGlyph::Fail => 'x',
            CheckStatusGlyph::Skip => '-',
            CheckStatusGlyph::Busy => '*',
        }
    }
}

// ─── check rows ─────────────────────────────────────────────────────

#[derive(Clone, Copy, Debug, PartialEq, Eq, Structural)]
pub enum CheckStatus {
    Pass,
    Warn,
    Fail,
    Skip,
    Busy,
}

impl CheckStatus {
    pub open spec fn glyph_kind(self) -> CheckStatusGlyph {
        match self {
            CheckStatus::Pass => CheckStatusGlyph::Pass,
            CheckStatus::Warn => CheckStatusGlyph::Warn,
            CheckStatus::Fail => CheckStatusGlyph::Fail,
            CheckStatus::Skip => CheckStatusGlyph::Skip,
            CheckStatus::Busy => CheckStatusGlyph::Busy,
        }
    }

    pub fn glyph(self, colored: bool) -> (c: char)
        ensures
            c == check_glyph_spec(colored, self.glyph_kind()),
    {
        let k = match self {
            CheckStatus::Pass => CheckStatusGlyph::Pass,
            CheckStatus::Warn => CheckStatusGlyph::Warn,
            CheckStatus::Fail => CheckStatusGlyph::Fail,
            CheckStatus::Skip => CheckStatusGlyph::Skip,
            CheckStatus::Busy => CheckStatusGlyph::Busy,
        };
        check_glyph(colored, k)
    }
}

/// Text of a check row: `  <glyph> <label>` and, when a detail is
/// given, `  <detail>` after it.
pub open spec fn check_row_spec(
    colored: bool,
    status: CheckStatus,
    label: Seq<char>,
    detail: Option<Seq<char>>,
) -> Seq<char> {
    "  "@.push(check_glyph_spec(colored, status.glyph_kind())) + " "@ + label + match detail {
        Some(d) => "  "@ + d,
        None => Seq::empty(),
    }
}

pub fn check_row_text(colored: bool, status: CheckStatus, label: &str, detail: Option<&str>) -> (s: String)
    ensures
        s@ == check_row_spec(
            colored,
            status,
            label@,
            match detail {
                Some(d) => Some(d@),
                None => None,
            },
        ),
{
    let mut s = from_str("  ");
    string_push(&mut s, status.glyph(colored));
    s.append(" ");
    s.append(label);
    match detail {
        Some(d) => {
            s.append("  ");
            s.append(d);
        },
        None => {
            assert(s@ + Seq::<char>::empty() =~= s@);
        },
    }
    s
}

// ─── key hints ──────────────────────────────────────────────────────

/// One entry of the bottom key bar: a key chip and what it does.
#[derive(Clone, Copy, Debug)]
pub struct KeyHint {
    pub key: &'static str,
    pub label: &'static str,
}

impl KeyHint {
    pub fn new(key: &'static str, label: &'static str) -> (h: Self)
        ensures
            h.key@ == key@,
            h.label@ == label@,
    {
        KeyHint { key, label }
    }
}

/// The (key, label) texts of a list of hints.
pub open spec fn hints_text(hs: Seq<KeyHint>) -> Seq<(Seq<char>, Seq<char>)> {
    hs.map_values(|h: KeyHint| (h.key@, h.label@))
}

/// Text of the key bar: ` key ` chip and ` label` per hint, hints
/// separated by three spaces.
pub open spec fn keybar_spec(hs: Seq<(Seq<char>, Seq<char>)>) -> Seq<char>
    decreases hs.len(),
{
    if hs.len() == 0 {
        Seq::empty()
    } else {
        let prev = keybar_spec(hs.drop_last());
        let h = hs.last();
        (if hs.len() > 1 {
            prev + "   "@
        } else {
            prev
        }) + " "@ + h.0 + " "@ + " "@ + h.1
    }
}

pub fn keybar_text(items: &Vec<KeyHint>) -> (s: String)
    ensures
        s@ == keybar_spec(hints_text(items@)),
{
    let mut s = String::new();
    let mut i: usize = 0;
    while i < items.len()
        invariant
            i <= items.len(),
            s@ == keybar_spec(hints_text(items@.subrange(0, i as int))),
        decreases items.len() - i,
    {
        let ghost before = s@;
        if i > 0 {
            s.append("   ");
        }
        s.append(" ");
        s.append(items[i].key);
        s.append(" ");
        s.append(" ");
        s.append(items[i].label);
        proof {
            let hs = hints_text(items@.subrange(0, i + 1));
            assert(hs.drop_last() =~= hints_text(items@.subrange(0, i as int)));
            assert(hs.last() == (items@[i as int].key@, items@[i as int].label@));
        }
        i = i + 1;
    }
    assert(items@.subrange(0, items.len() as int) =~= items@);
    s
}

// ─── agent pill ─────────────────────────────────────────────────────

#[derive(Clone, Debug, PartialEq, Eq)]
pub enum AgentPill {
    /// No profile is active in this session.
    NoProfile,
    /// The local container is active; `alias` may be empty.
    Local { alias: String },
    /// The server-synced container is active.
    Remote { server: String, alias: String },
    Locked,
    Running,
}

pub enum AgentPillView {
    NoProfile,
    Local { alias: Seq<char> },
    Remote { server: Seq<char>, alias: Seq<char> },
    Locked,
    Running,
}

impl View for AgentPill {
    type V = AgentPillView;

    open spec fn view(&self) -> AgentPillView {
        match self {
            AgentPill::NoProfile => AgentPillView::NoProfile,
            AgentPill::Local { alias } => AgentPillView::Local { alias: alias@ },
            AgentPill::Remote { server, alias } => AgentPillView::Remote {
                server: server@,
                alias: alias@,
            },
            AgentPill::Locked => AgentPillView::Locked,
            AgentPill::Running => AgentPillView::Running,
        }
    }
}

/// `head · alias`, or just `head` when the alias is empty.
pub open spec fn with_alias(head: Seq<char>, alias: Seq<char>) -> Seq<char> {
    if alias.len() == 0 {
        head
    } else {
        head + " · "@ + alias
    }
}

/// Glyph and label of the pill.
pub open spec fn pill_parts(p: AgentPillView, colored: bool) -> (char, Seq<char>) {
    let active = if colored { '●' } else { '*' };
    let idle = if colored { '○' } else { 'o' };
    match p {
        AgentPillView::NoProfile => (idle, "no profile"@),
        AgentPillView::Local { alias } => (active, with_alias("local"@, alias)),
        AgentPillView::Remote { server, alias } => (
            active,
            with_alias("remote · "@ + server, alias),
        ),
        AgentPillView::Locked => (active, "locked"@),
        AgentPillView::Running => (active, "running"@),
    }
}

/// Which chip colour the pill takes.
#[derive(Clone, Copy, Debug, PartialEq, Eq, Structural)]
pub enum PillTone {
    Idle,
    Ready,
    Warn,
    Running,
}

fn append_alias(s: &mut String, alias: &String)
    ensures
        final(s)@ == with_alias(old(s)@, alias@),
{
    if !alias.as_str().is_empty() {
        s.append(" · ");
        s.append(alias.as_str());
    }
}

impl AgentPill {
    pub fn parts(&self, colored: bool) -> (r: (char, String))
        ensures
            (r.0, r.1@) == pill_parts(self@, colored),
    {
        let active = if colored { '●' } else { '*' };
        let idle = if colored { '○' } else { 'o' };
        match self {
            AgentPill::NoProfile => (idle, from_str("no profile")),
            AgentPill::Local { alias } => {
                let mut s = from_str("local");
                append_alias(&mut s, alias);
                (active, s)
            },
            AgentPill::Remote { server, alias } => {
                let mut s = from_str("remote · ");
                s.append(server.as_str());
                append_alias(&mut s, alias);
                (active, s)
            },
            AgentPill::Locked => (active, from_str("locked")),
            AgentPill::Running => (active, from_str("running")),
        }
    }

    pub fn tone(&self) -> (t: PillTone)
        ensures
            t == match self@ {
                AgentPillView::NoProfile => PillTone::Idle,
                AgentPillView::Local { .. } => PillTone::Ready,
                AgentPillView::Remote { .. } => PillTone::Ready,
                AgentPillView::Locked => PillTone::Warn,
                AgentPillView::Running => PillTone::Running,
            },
    {
        match self {
            AgentPill::NoProfile => PillTone::Idle,
            AgentPill::Local { .. } => PillTone::Ready,
            AgentPill::Remote { .. } => PillTone::Ready,
            AgentPill::Locked => PillTone::Warn,
            AgentPill::Running => PillTone::Running,
        }
    }

    /// The chip's style under `theme`: idle without a profile, ready
    /// for an active one, warning when locked, running while busy.
    pub fn chip_style(&self, theme: &Theme) -> (s: StyleSpec)
        ensures
            s == role_style(
                theme.colored,
                match self@ {
                    AgentPillView::NoProfile => StyleRole::PillIdle,
                    AgentPillView::Local { .. } => StyleRole::PillReady,
                    AgentPillView::Remote { .. } => StyleRole::PillReady,
                    AgentPillView::Locked => StyleRole::PillWarn,
                    AgentPillView::Running => StyleRole::PillRunning,
                },
            ),
    {
        match self {
            AgentPill::NoProfile => theme.pill_idle(),
            AgentPill::Local { .. } => theme.pill_ready(),
            AgentPill::Remote { .. } => theme.pill_ready(),
            AgentPill::Locked => theme.pill_warn(),
            AgentPill::Running => theme.pill_running(),
        }
    }

    /// The chip text: two spaces, glyph, space, label, two spaces.
    pub fn chip_text(&self, colored: bool) -> (s: String)
        ensures
            s@ == "  "@.push(pill_parts(self@, colored).0) + " "@ + pill_parts(self@, colored).1
                + "  "@,
    {
        let (g, label) = self.parts(colored);
        let mut s = from_str("  ");
        string_push(&mut s, g);
        s.append(" ");
        s.append(label.as_str());
        s.append("  ");
        s
    }
}

/// Placement of the pill chip on a row that ends at column `right`:
/// `None` when the area is too small (under 6 columns or 0 rows),
/// else `(x, width)` with the chip right-aligned and cut to the area.
pub open spec fn pill_placement_spec(right: u16, area_width: u16, area_height: u16, chip_chars: nat) -> Option<(u16, u16)> {
    if area_width < 6 || area_height < 1 {
        None
    } else {
        let w: u16 = if chip_chars < area_width { chip_chars as u16 } else { area_width };
        let x: u16 = if right >= w { (right - w) as u16 } else { 0 };
        Some((x, w))
    }
}

pub fn pill_placement(right: u16, area_width: u16, area_height: u16, chip_chars: usize) -> (r: Option<(u16, u16)>)
    ensures
        r == pill_placement_spec(right, area_width, area_height, chip_chars as nat),
{
    if area_width < 6 || area_height < 1 {
        return None;
    }
    let w: u16 = if chip_chars < area_width as usize { chip_chars as u16 } else { area_width };
    let x: u16 = if right >= w { right - w } else { 0 };
    Some((x, w))
}

// ─── stepper ────────────────────────────────────────────────────────

#[derive(Clone, Copy, Debug, PartialEq, Eq, Structural)]
pub enum StepState {
    Past,
    Active,
    Future,
    Disabled,
}

impl StepState {
    pub open spec fn dot_spec(self, colored: bool) -> char {
        match (self, colored) {
            (StepState::Past, true) => '●',
            (StepState::Active, true) => '◉',
            (StepState::Future, true) => '○',
            (StepState::Disabled, true) => '·',
            (StepState::Past, false) => '*',
            (StepState::Active, false) => '@',
            (StepState::Future, false) => 'o',
            (StepState::Disabled, false) => '.',
        }
    }

    pub fn dot(self, colored: bool) -> (c: char)
        ensures
            c == self.dot_spec(colored),
    {
        match (self, colored) {
            (StepState::Past, true) => '●',
            (StepState::Active, true) => '◉',
            (StepState::Future, true) => '○',
            (StepState::Disabled, true) => '·',
            (StepState::Past, false) => '*',
            (StepState::Active, false) => '@',
            (StepState::Future, false) => 'o',
            (StepState::Disabled, false) => '.',
        }
    }
}

/// Text of the stepper band: `<dot> <label>` per step, two spaces
/// between steps.
pub open spec fn steps_spec(steps: Seq<(Seq<char>, StepState)>, colored: bool) -> Seq<char>
    decreases steps.len(),
{
    if steps.len() == 0 {
        Seq::empty()
    } else {
        let prev = steps_spec(steps.drop_last(), colored);
        let st = steps.last();
        (if steps.len() > 1 {
            prev + "  "@
        } else {
            prev
        }).push(st.1.dot_spec(colored)) + " "@ + st.0
    }
}

pub open spec fn steps_view(v: Seq<(&'static str, StepState)>) -> Seq<(Seq<char>, StepState)> {
    v.map_values(|p: (&'static str, StepState)| (p.0@, p.1))
}

pub fn steps_text(labels: &Vec<(&'static str, StepState)>, colored: bool) -> (s: String)
    ensures
        s@ == steps_spec(steps_view(labels@), colored),
{
    let mut s = String::new();
    let mut i: usize = 0;
    while i < labels.len()
        invariant
            i <= labels.len(),
            s@ == steps_spec(steps_view(labels@.subrange(0, i as int)), colored),
        decreases labels.len() - i,
    {
        if i > 0 {
            s.append("  ");
        }
        let (label, state) = labels[i];
        string_push(&mut s, state.dot(colored));
        s.append(" ");
        s.append(label);
        proof {
            let hs = steps_view(labels@.subrange(0, i + 1));
            assert(hs.drop_last() =~= steps_view(labels@.subrange(0, i as int)));
        }
        i = i + 1;
    }
    assert(labels@.subrange(0, labels.len() as int) =~= labels@);
    s
}

// ─── strength bar ───────────────────────────────────────────────────

/// Colour band of a meter.
#[derive(Clone, Copy, Debug, PartialEq, Eq, Structural)]
pub enum MeterLevel {
    Good,
    Fair,
    Poor,
}

/// Cells of a meter of `bar_width` cells showing `score` out of `max`:
/// `(filled, empty, level)`. A zero `max` counts as one; the score is
/// capped at `max`; 60 % and above is good, 30 % and above fair.
pub open spec fn meter_spec(score: u8, max: u8, bar_width: u16) -> (u16, u16, MeterLevel) {
    let m: int = if max < 1 { 1 } else { max as int };
    let sc: int = if (score as int) < m { score as int } else { m };
    let filled: int = sc * (bar_width as int) / m;
    let empty: int = if bar_width >= filled { bar_width - filled } else { 0 };
    let pct: int = sc * 100 / m;
    let level = if pct >= 60 {
        MeterLevel::Good
    } else if pct >= 30 {
        MeterLevel::Fair
    } else {
        MeterLevel::Poor
    };
    (filled as u16, empty as u16, level)
}

pub fn meter(score: u8, max: u8, bar_width: u16) -> (r: (u16, u16, MeterLevel))
    ensures
        r == meter_spec(score, max, bar_width),
{
    let m: u32 = if max < 1 { 1 } else { max as u32 };
    let sc: u32 = if (score as u32) < m { score as u32 } else { m };
    assert(sc * (bar_width as u32) <= 255 * 65535) by (nonlinear_arith)
        requires
            sc <= 255,
            bar_width <= 65535,
    ;
    let filled: u32 = sc * (bar_width as u32) / m;
    assert(filled <= bar_width) by (nonlinear_arith)
        requires
            filled as int == (sc as int) * (bar_width as int) / (m as int),
            sc <= m,
            m >= 1,
    ;
    let empty: u16 = bar_width - filled as u16;
    let pct: u32 = sc * 100 / m;
    let level = if pct >= 60 {
        MeterLevel::Good
    } else if pct >= 30 {
        MeterLevel::Fair
    } else {
        MeterLevel::Poor
    };
    (filled as u16, empty, level)
}

} // verus!
