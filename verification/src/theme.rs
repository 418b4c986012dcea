//! Colours and text styles. A theme is either coloured (a Tokyo-night
//! palette) or plain, where emphasis comes from bold, dim, underline
//! and reverse video alone. Colours are `0xRRGGBB` values.

use vstd::prelude::*;
use crate::text::str_eq;
use crate::wizard::opt_str_view;

verus! {

pub const BG_0: u32 = 0x1a1b26;
pub const BG_1: u32 = 0x1f2030;
pub const BG_2: u32 = 0x24253a;
pub const BG_3: u32 = 0x2c2e44;
pub const BG_4: u32 = 0x363a54;
pub const BORDER: u32 = 0x3b4261;
pub const FG: u32 = 0xc0caf5;
pub const FG_DIM: u32 = 0x828bb8;
pub const FG_MUTE: u32 = 0x545c7e;
pub const FG_BRIGHT: u32 = 0xffffff;
pub const CYAN: u32 = 0x7dcfff;
pub const BLUE: u32 = 0x82aaff;
pub const GREEN: u32 = 0xa3e635;
pub const MINT: u32 = 0x4fd6be;
pub const YELLOW: u32 = 0xffc777;
pub const ORANGE: u32 = 0xff966c;
pub const PINK: u32 = 0xff9bd6;
pub const MAGENTA: u32 = 0xc099ff;
pub const RED: u32 = 0xff757f;
pub const ACCENT: u32 = MINT;
pub const OK: u32 = GREEN;
pub const WARN: u32 = YELLOW;
pub const DANGER: u32 = RED;
pub const INFO: u32 = CYAN;

/// A text style: optional foreground and background colours and the
/// four modifiers the screens use.
#[derive(Clone, Copy, Debug, PartialEq, Eq, Structural)]
pub struct StyleSpec {
    pub fg: Option<u32>,
    pub bg: Option<u32>,
    pub bold: bool,
    pub dim: bool,
    pub underlined: bool,
    pub reversed: bool,
}

pub open spec fn plain_style() -> StyleSpec {
    StyleSpec { fg: None, bg: None, bold: false, dim: false, underlined: false, reversed: false }
}

/// Every style the screens ask a theme for.
#[derive(Clone, Copy, Debug, PartialEq, Eq, Structural)]
pub enum StyleRole {
    Body,
    Dim,
    DimBright,
    Header,
    Accent,
    AccentBold,
    Cyan,
    Yellow,
    Good,
    Warn,
    Danger,
    KeybarChip,
    KeybarLabel,
    PillIdle,
    PillReady,
    PillWarn,
    PillRunning,
    FocusBg,
    StepActive,
    StepActiveDot,
    StepPast,
    StepFuture,
    StepDisabled,
}

/// A foreground colour alone.
pub open spec fn fg_only(c: u32) -> StyleSpec {
    StyleSpec { fg: Some(c), ..plain_style() }
}

/// A chip: dark text on a coloured background, bold.
pub open spec fn chip(bg: u32) -> StyleSpec {
    StyleSpec { fg: Some(BG_0), bg: Some(bg), bold: true, ..plain_style() }
}

/// The style of `role` in a coloured theme.
pub open spec fn colored_style(role: StyleRole) -> StyleSpec {
    match role {
        StyleRole::Body => fg_only(FG),
        StyleRole::Dim => fg_only(FG_MUTE),
        StyleRole::DimBright => fg_only(FG_DIM),
        StyleRole::Header => StyleSpec { bold: true, ..fg_only(FG_BRIGHT) },
        StyleRole::Accent => fg_only(ACCENT),
        StyleRole::AccentBold => StyleSpec { bold: true, ..fg_only(ACCENT) },
        StyleRole::Cyan => fg_only(CYAN),
        StyleRole::Yellow => fg_only(YELLOW),
        StyleRole::Good => fg_only(OK),
        StyleRole::Warn => fg_only(WARN),
        StyleRole::Danger => fg_only(DANGER),
        StyleRole::KeybarChip => chip(FG_DIM),
        StyleRole::KeybarLabel => fg_only(FG_MUTE),
        StyleRole::PillIdle => chip(FG_DIM),
        StyleRole::PillReady => chip(ACCENT),
        StyleRole::PillWarn => chip(WARN),
        StyleRole::PillRunning => chip(CYAN),
        StyleRole::FocusBg => StyleSpec { bg: Some(BG_3), ..fg_only(FG_BRIGHT) },
        StyleRole::StepActive => StyleSpec { bold: true, underlined: true, ..fg_only(ACCENT) },
        StyleRole::StepActiveDot => StyleSpec { bold: true, ..fg_only(ACCENT) },
        StyleRole::StepPast => fg_only(FG_DIM),
        StyleRole::StepFuture => fg_only(FG_MUTE),
        StyleRole::StepDisabled => fg_only(BG_4),
    }
}

/// The style of `role` in a plain theme: modifiers only.
pub open spec fn plain_role_style(role: StyleRole) -> StyleSpec {
    let p = plain_style();
    match role {
        StyleRole::Body => p,
        StyleRole::Dim => StyleSpec { dim: true, ..p },
        StyleRole::DimBright => p,
        StyleRole::Header => StyleSpec { bold: true, ..p },
        StyleRole::Accent => StyleSpec { underlined: true, ..p },
        StyleRole::AccentBold => StyleSpec { bold: true, ..p },
        StyleRole::Cyan => StyleSpec { bold: true, ..p },
        StyleRole::Yellow => StyleSpec { bold: true, ..p },
        StyleRole::Good => StyleSpec { bold: true, ..p },
        StyleRole::Warn => StyleSpec { bold: true, ..p },
        StyleRole::Danger => StyleSpec { bold: true, underlined: true, ..p },
        StyleRole::KeybarChip => StyleSpec { reversed: true, bold: true, ..p },
        StyleRole::KeybarLabel => StyleSpec { dim: true, ..p },
        StyleRole::PillIdle => StyleSpec { reversed: true, bold: true, ..p },
        StyleRole::PillReady => StyleSpec { reversed: true, bold: true, ..p },
        StyleRole::PillWarn => StyleSpec { reversed: true, bold: true, ..p },
        StyleRole::PillRunning => StyleSpec { reversed: true, bold: true, ..p },
        StyleRole::FocusBg => StyleSpec { reversed: true, ..p },
        StyleRole::StepActive => StyleSpec { bold: true, underlined: true, ..p },
        StyleRole::StepActiveDot => StyleSpec { bold: true, ..p },
        StyleRole::StepPast => p,
        StyleRole::StepFuture => StyleSpec { dim: true, ..p },
        StyleRole::StepDisabled => StyleSpec { dim: true, ..p },
    }
}

pub open spec fn role_style(colored: bool, role: StyleRole) -> StyleSpec {
    if colored {
        colored_style(role)
    } else {
        plain_role_style(role)
    }
}

/// A plain theme never paints a background: emphasis comes from the
/// modifiers alone, whatever the style.
pub proof fn law_plain_theme_has_no_background(role: StyleRole)
    ensures
        role_style(false, role).bg is None,
{
}

/// Accent colour of a panel's border and title.
#[derive(Clone, Copy, Debug, PartialEq, Eq, Structural)]
pub enum PanelAccent {
    Mint,
    Cyan,
    Yellow,
    Red,
    Magenta,
    Dim,
}

pub open spec fn accent_color(a: PanelAccent) -> u32 {
    match a {
        PanelAccent::Mint => ACCENT,
        PanelAccent::Cyan => CYAN,
        PanelAccent::Yellow => YELLOW,
        PanelAccent::Red => DANGER,
        PanelAccent::Magenta => MAGENTA,
        PanelAccent::Dim => BORDER,
    }
}

/// Where the theme reads environment variables from.
pub trait EnvLookup {
    /// The value of `key`, if set.
    spec fn lookup(&self, key: Seq<char>) -> Option<Seq<char>>;

    fn get(&self, key: &str) -> (r: Option<String>)
        ensures
            opt_str_view(r) == self.lookup(key@),
    ;
}

/// A fixed set of variables, for tests and for a driver that has read
/// them already. Setting a name again replaces its value: the newest
/// entry for a name hides the older ones.
pub struct MockEnv {
    vars: Vec<(String, String)>,
}

/// Value of the first entry of `vars` named `key`.
pub open spec fn first_value(vars: Seq<(String, String)>, key: Seq<char>) -> Option<Seq<char>>
    decreases vars.len(),
{
    if vars.len() == 0 {
        None
    } else if vars[0].0@ == key {
        Some(vars[0].1@)
    } else {
        first_value(vars.drop_first(), key)
    }
}

impl MockEnv {
    pub closed spec fn value_of(&self, key: Seq<char>) -> Option<Seq<char>> {
        first_value(self.vars@, key)
    }

    /// No variable set.
    pub fn empty() -> (e: Self)
        ensures
            forall|k: Seq<char>| e.value_of(k) is None,
    {
        MockEnv { vars: Vec::new() }
    }

    /// The same variables with `k` set to `v`.
    pub fn with(self, k: &str, v: &str) -> (e: Self)
        ensures
            e.value_of(k@) == Some(v@),
            forall|other: Seq<char>| other != k@ ==> e.value_of(other) == self.value_of(other),
    {
        let mut vars: Vec<(String, String)> = Vec::new();
        vars.push((k.to_owned(), v.to_owned()));
        let mut rest = self.vars;
        vars.append(&mut rest);
        let e = MockEnv { vars };
        assert(e.vars@.drop_first() =~= self.vars@);
        e
    }
}

impl EnvLookup for MockEnv {
    open spec fn lookup(&self, key: Seq<char>) -> Option<Seq<char>> {
        self.value_of(key)
    }

    fn get(&self, key: &str) -> (r: Option<String>) {
        assert(self.vars@.subrange(0, self.vars@.len() as int) =~= self.vars@);
        let mut i: usize = 0;
        while i < self.vars.len()
            invariant
                i <= self.vars@.len(),
                self.value_of(key@) == first_value(self.vars@.subrange(i as int, self.vars@.len() as int), key@),
            decreases self.vars.len() - i,
        {
            let ghost rest = self.vars@.subrange(i as int, self.vars@.len() as int);
            if str_eq(self.vars[i].0.as_str(), key) {
                return Some(self.vars[i].1.clone());
            }
            assert(rest.drop_first() =~= self.vars@.subrange(i + 1, self.vars@.len() as int));
            i = i + 1;
        }
        None
    }
}

/// Whether the screens use colour.
#[derive(Clone, Copy, Debug, PartialEq, Eq, Structural)]
pub struct Theme {
    pub colored: bool,
}

/// The colour decision: a non-empty `NO_COLOR` turns colour off, then
/// `CLICOLOR=0` does, then a non-empty `FORCE_COLOR` turns it on;
/// otherwise colour follows whether the output is a terminal.
pub open spec fn colored_spec(
    no_color: Option<Seq<char>>,
    clicolor: Option<Seq<char>>,
    force_color: Option<Seq<char>>,
    tty: bool,
) -> bool {
    if no_color matches Some(v) && v.len() > 0 {
        false
    } else if clicolor == Some("0"@) {
        false
    } else if force_color matches Some(v) && v.len() > 0 {
        true
    } else {
        tty
    }
}

impl Theme {
    /// The theme for the environment `env` and a terminal (`tty`) or not.
    pub fn from_parts<E: EnvLookup>(env: &E, tty: bool) -> (t: Theme)
        ensures
            t.colored == colored_spec(
                env.lookup("NO_COLOR"@),
                env.lookup("CLICOLOR"@),
                env.lookup("FORCE_COLOR"@),
                tty,
            ),
    {
        let no_color = env.get("NO_COLOR");
        let clicolor = env.get("CLICOLOR");
        let force = env.get("FORCE_COLOR");
        proof {
            reveal_strlit("0");
        }
        let off = match &no_color {
            Some(v) => !v.as_str().is_empty(),
            None => false,
        };
        if off {
            return Theme { colored: false };
        }
        let cli_off = match &clicolor {
            Some(v) => str_eq(v.as_str(), "0"),
            None => false,
        };
        if cli_off {
            return Theme { colored: false };
        }
        let on = match &force {
            Some(v) => !v.as_str().is_empty(),
            None => false,
        };
        if on {
            return Theme { colored: true };
        }
        Theme { colored: tty }
    }

    /// The style of `role` in this theme.
    pub fn style(&self, role: StyleRole) -> (s: StyleSpec)
        ensures
            s == role_style(self.colored, role),
    {
        let p = StyleSpec { fg: None, bg: None, bold: false, dim: false, underlined: false, reversed: false };
        if self.colored {
            let fg = |c: u32| -> (r: StyleSpec)
                ensures
                    r == fg_only(c),
                { StyleSpec { fg: Some(c), ..p } };
            let chip = |c: u32| -> (r: StyleSpec)
                ensures
                    r == chip(c),
                { StyleSpec { fg: Some(BG_0), bg: Some(c), bold: true, ..p } };
            match role {
                StyleRole::Body => fg(FG),
                StyleRole::Dim => fg(FG_MUTE),
                StyleRole::DimBright => fg(FG_DIM),
                StyleRole::Header => StyleSpec { bold: true, ..fg(FG_BRIGHT) },
                StyleRole::Accent => fg(ACCENT),
                StyleRole::AccentBold => StyleSpec { bold: true, ..fg(ACCENT) },
                StyleRole::Cyan => fg(CYAN),
                StyleRole::Yellow => fg(YELLOW),
                StyleRole::Good => fg(OK),
                StyleRole::Warn => fg(WARN),
                StyleRole::Danger => fg(DANGER),
                StyleRole::KeybarChip => chip(FG_DIM),
                StyleRole::KeybarLabel => fg(FG_MUTE),
                StyleRole::PillIdle => chip(FG_DIM),
                StyleRole::PillReady => chip(ACCENT),
                StyleRole::PillWarn => chip(WARN),
                StyleRole::PillRunning => chip(CYAN),
                StyleRole::FocusBg => StyleSpec { bg: Some(BG_3), ..fg(FG_BRIGHT) },
                StyleRole::StepActive => StyleSpec { bold: true, underlined: true, ..fg(ACCENT) },
                StyleRole::StepActiveDot => StyleSpec { bold: true, ..fg(ACCENT) },
                StyleRole::StepPast => fg(FG_DIM),
                StyleRole::StepFuture => fg(FG_MUTE),
                StyleRole::StepDisabled => fg(BG_4),
            }
        } else {
            match role {
                StyleRole::Body => p,
                StyleRole::Dim => StyleSpec { dim: true, ..p },
                StyleRole::DimBright => p,
                StyleRole::Header => StyleSpec { bold: true, ..p },
                StyleRole::Accent => StyleSpec { underlined: true, ..p },
                StyleRole::AccentBold => StyleSpec { bold: true, ..p },
                StyleRole::Cyan => StyleSpec { bold: true, ..p },
                StyleRole::Yellow => StyleSpec { bold: true, ..p },
                StyleRole::Good => StyleSpec { bold: true, ..p },
                StyleRole::Warn => StyleSpec { bold: true, ..p },
                StyleRole::Danger => StyleSpec { bold: true, underlined: true, ..p },
                StyleRole::KeybarChip => StyleSpec { reversed: true, bold: true, ..p },
                StyleRole::KeybarLabel => StyleSpec { dim: true, ..p },
                StyleRole::PillIdle => StyleSpec { reversed: true, bold: true, ..p },
                StyleRole::PillReady => StyleSpec { reversed: true, bold: true, ..p },
                StyleRole::PillWarn => StyleSpec { reversed: true, bold: true, ..p },
                StyleRole::PillRunning => StyleSpec { reversed: true, bold: true, ..p },
                StyleRole::FocusBg => StyleSpec { reversed: true, ..p },
                StyleRole::StepActive => StyleSpec { bold: true, underlined: true, ..p },
                StyleRole::StepActiveDot => StyleSpec { bold: true, ..p },
                StyleRole::StepPast => p,
                StyleRole::StepFuture => StyleSpec { dim: true, ..p },
                StyleRole::StepDisabled => StyleSpec { dim: true, ..p },
            }
        }
    }

    pub fn body(&self) -> (s: StyleSpec)
        ensures
            s == role_style(self.colored, StyleRole::Body),
    {
        self.style(StyleRole::Body)
    }

    /// De-emphasised text.
    pub fn dim(&self) -> (s: StyleSpec)
        ensures
            s == role_style(self.colored, StyleRole::Dim),
    {
        self.style(StyleRole::Dim)
    }

    /// Form labels: brighter than `dim`.
    pub fn dim_bright(&self) -> (s: StyleSpec)
        ensures
            s == role_style(self.colored, StyleRole::DimBright),
    {
        self.style(StyleRole::DimBright)
    }

    /// The wordmark and breadcrumbs.
    pub fn header(&self) -> (s: StyleSpec)
        ensures
            s == role_style(self.colored, StyleRole::Header),
    {
        self.style(StyleRole::Header)
    }

    /// Focused borders and selected radios.
    pub fn accent(&self) -> (s: StyleSpec)
        ensures
            s == role_style(self.colored, StyleRole::Accent),
    {
        self.style(StyleRole::Accent)
    }

    pub fn accent_bold(&self) -> (s: StyleSpec)
        ensures
            s == role_style(self.colored, StyleRole::AccentBold),
    {
        self.style(StyleRole::AccentBold)
    }

    pub fn cyan(&self) -> (s: StyleSpec)
        ensures
            s == role_style(self.colored, StyleRole::Cyan),
    {
        self.style(StyleRole::Cyan)
    }

    pub fn yellow(&self) -> (s: StyleSpec)
        ensures
            s == role_style(self.colored, StyleRole::Yellow),
    {
        self.style(StyleRole::Yellow)
    }

    pub fn ok(&self) -> (s: StyleSpec)
        ensures
            s == role_style(self.colored, StyleRole::Good),
    {
        self.style(StyleRole::Good)
    }

    pub fn warn(&self) -> (s: StyleSpec)
        ensures
            s == role_style(self.colored, StyleRole::Warn),
    {
        self.style(StyleRole::Warn)
    }

    pub fn danger(&self) -> (s: StyleSpec)
        ensures
            s == role_style(self.colored, StyleRole::Danger),
    {
        self.style(StyleRole::Danger)
    }

    pub fn keybar_chip(&self) -> (s: StyleSpec)
        ensures
            s == role_style(self.colored, StyleRole::KeybarChip),
    {
        self.style(StyleRole::KeybarChip)
    }

    pub fn keybar_label(&self) -> (s: StyleSpec)
        ensures
            s == role_style(self.colored, StyleRole::KeybarLabel),
    {
        self.style(StyleRole::KeybarLabel)
    }

    /// The no-profile chip.
    pub fn pill_idle(&self) -> (s: StyleSpec)
        ensures
            s == role_style(self.colored, StyleRole::PillIdle),
    {
        self.style(StyleRole::PillIdle)
    }

    /// The profile-ready chip.
    pub fn pill_ready(&self) -> (s: StyleSpec)
        ensures
            s == role_style(self.colored, StyleRole::PillReady),
    {
        self.style(StyleRole::PillReady)
    }

    /// The locked chip.
    pub fn pill_warn(&self) -> (s: StyleSpec)
        ensures
            s == role_style(self.colored, StyleRole::PillWarn),
    {
        self.style(StyleRole::PillWarn)
    }

    /// The running chip.
    pub fn pill_running(&self) -> (s: StyleSpec)
        ensures
            s == role_style(self.colored, StyleRole::PillRunning),
    {
        self.style(StyleRole::PillRunning)
    }

    pub fn focus_bg(&self) -> (s: StyleSpec)
        ensures
            s == role_style(self.colored, StyleRole::FocusBg),
    {
        self.style(StyleRole::FocusBg)
    }

    pub fn step_active(&self) -> (s: StyleSpec)
        ensures
            s == role_style(self.colored, StyleRole::StepActive),
    {
        self.style(StyleRole::StepActive)
    }

    /// The dot before the active step.
    pub fn step_active_dot(&self) -> (s: StyleSpec)
        ensures
            s == role_style(self.colored, StyleRole::StepActiveDot),
    {
        self.style(StyleRole::StepActiveDot)
    }

    pub fn step_past(&self) -> (s: StyleSpec)
        ensures
            s == role_style(self.colored, StyleRole::StepPast),
    {
        self.style(StyleRole::StepPast)
    }

    pub fn step_future(&self) -> (s: StyleSpec)
        ensures
            s == role_style(self.colored, StyleRole::StepFuture),
    {
        self.style(StyleRole::StepFuture)
    }

    pub fn step_disabled(&self) -> (s: StyleSpec)
        ensures
            s == role_style(self.colored, StyleRole::StepDisabled),
    {
        self.style(StyleRole::StepDisabled)
    }

    /// A panel border in `accent`: its colour, or nothing when plain.
    pub fn border_accent(&self, accent: PanelAccent) -> (s: StyleSpec)
        ensures
            s == if self.colored {
                fg_only(accent_color(accent))
            } else {
                plain_style()
            },
    {
        let c = match accent {
            PanelAccent::Mint => ACCENT,
            PanelAccent::Cyan => CYAN,
            PanelAccent::Yellow => YELLOW,
            PanelAccent::Red => DANGER,
            PanelAccent::Magenta => MAGENTA,
            PanelAccent::Dim => BORDER,
        };
        if self.colored {
            StyleSpec { fg: Some(c), bg: None, bold: false, dim: false, underlined: false, reversed: false }
        } else {
            StyleSpec { fg: None, bg: None, bold: false, dim: false, underlined: false, reversed: false }
        }
    }

    /// A panel title in `accent`: the border's style, bold.
    pub fn panel_title(&self, accent: PanelAccent) -> (s: StyleSpec)
        ensures
            s == (StyleSpec {
                bold: true,
                ..(if self.colored {
                    fg_only(accent_color(accent))
                } else {
                    plain_style()
                })
            }),
    {
        let b = self.border_accent(accent);
        StyleSpec { bold: true, ..b }
    }
}

} // verus!
