//! What some screens say, as lines of styled text: the Done screen's
//! summary and cheat sheet, and the rows of the connection picker. The
//! driver draws them with the theme's style for each role.

use vstd::prelude::*;
use crate::app::{App, PushedSummary, server_label_spec};
use crate::app_keys::welcome_items_spec;
use crate::wizard::{
    WizardMode,
    LoginFlowStage, LoginFlowState, PassphraseStage, PassphraseStageView, WelcomeItem, url_host_spec,
};
use crate::widgets::{CheckStatus, StepState};
use crate::qr::{outer_size_spec, qr_outer_size, qr_symbol_of};
use crate::profile::PlainProfile;
use crate::screens::{
    Screen, add_inner_label_spec, add_inner_stepper_index, add_inner_stepper_index_spec,
    breadcrumb_in_context, breadcrumb_spec, build_add_inner_step_labels, build_step_labels,
    screen_shows_steps, step_label_spec, step_state_spec,
    ContainerPickerScreen, NextcloudLoginFlowScreen, ProfilePassphraseScreen, WelcomeScreen,
    provider_summary_spec,
};
use crate::text::{decimal, decimal_spec, from_str, str_eq};
use crate::theme::{PanelAccent, StyleRole};

verus! {

/// A run of text drawn in one style.
pub struct StyledSpan {
    pub text: String,
    pub role: StyleRole,
}

pub open spec fn spans_view(v: Seq<StyledSpan>) -> Seq<(Seq<char>, StyleRole)> {
    v.map_values(|s: StyledSpan| (s.text@, s.role))
}

pub open spec fn lines_view(v: Seq<Vec<StyledSpan>>) -> Seq<Seq<(Seq<char>, StyleRole)>> {
    v.map_values(|l: Vec<StyledSpan>| spans_view(l@))
}

pub(crate) fn span(text: &str, role: StyleRole) -> (s: StyledSpan)
    ensures
        s.text@ == text@,
        s.role == role,
{
    StyledSpan { text: from_str(text), role }
}

pub(crate) fn owned_span(text: String, role: StyleRole) -> (s: StyledSpan)
    ensures
        s.text@ == text@,
        s.role == role,
{
    StyledSpan { text, role }
}

pub(crate) fn push_line(lines: &mut Vec<Vec<StyledSpan>>, line: Vec<StyledSpan>)
    ensures
        lines_view(final(lines)@) == lines_view(old(lines)@).push(spans_view(line@)),
{
    let ghost before = lines@;
    lines.push(line);
    assert(lines_view(lines@) =~= lines_view(before).push(spans_view(line@)));
}

pub(crate) fn one(text: &str, role: StyleRole) -> (l: Vec<StyledSpan>)
    ensures
        spans_view(l@) == seq![(text@, role)],
{
    let mut l = Vec::new();
    l.push(span(text, role));
    assert(spans_view(l@) =~= seq![(text@, role)]);
    l
}

pub(crate) fn two(t1: &str, r1: StyleRole, t2: &str, r2: StyleRole) -> (l: Vec<StyledSpan>)
    ensures
        spans_view(l@) == seq![(t1@, r1), (t2@, r2)],
{
    let mut l = Vec::new();
    l.push(span(t1, r1));
    l.push(span(t2, r2));
    assert(spans_view(l@) =~= seq![(t1@, r1), (t2@, r2)]);
    l
}

pub(crate) fn blank() -> (l: Vec<StyledSpan>)
    ensures
        spans_view(l@) == Seq::<(Seq<char>, StyleRole)>::empty(),
{
    let l: Vec<StyledSpan> = Vec::new();
    assert(spans_view(l@) =~= Seq::<(Seq<char>, StyleRole)>::empty());
    l
}

pub open spec fn blank_spec() -> Seq<(Seq<char>, StyleRole)> {
    Seq::empty()
}

/// The lines shown after an upload: where the profile can be fetched
/// from, and under which alias.
pub open spec fn pushed_lines(alias: Seq<char>, size: u64, version: u64) -> Seq<
    Seq<(Seq<char>, StyleRole)>,
> {
    seq![
        seq![("  ✓ setup complete"@, StyleRole::Good)],
        blank_spec(),
        seq![("  the profile is now retrievable from any shell with "@, StyleRole::Dim)],
        seq![
            ("    zz z "@, StyleRole::Cyan),
            (alias, StyleRole::AccentBold),
            ("    # "@ + decimal_spec(size as nat) + " bytes, version "@ + decimal_spec(
                version as nat,
            ), StyleRole::Dim),
        ],
    ]
}

/// The lines shown when the profile stayed local: what losing the file
/// or the passphrase means, and how to make it recoverable.
pub open spec fn local_only_lines(server: Seq<char>) -> Seq<Seq<(Seq<char>, StyleRole)>> {
    seq![
        seq![("  ⚠  profile saved locally — not on any server"@, StyleRole::Warn)],
        blank_spec(),
        seq![("  if you lose either"@, StyleRole::Body)],
        seq![("    • the file "@, StyleRole::Body), ("profiles-local.zz"@, StyleRole::Cyan)],
        seq![("    • the passphrase you just typed"@, StyleRole::Body)],
        seq![("  the contents are gone — "@, StyleRole::Body), ("there is no recovery."@, StyleRole::Warn)],
        blank_spec(),
        seq![("  to make it recoverable from any shell:"@, StyleRole::Dim)],
        seq![
            ("    • re-run "@, StyleRole::Dim),
            ("zz-tui"@, StyleRole::Cyan),
            (", choose "@, StyleRole::Dim),
            ("Open local profile"@, StyleRole::AccentBold),
            (","@, StyleRole::Dim),
        ],
        seq![
            ("      then press p to push it to "@, StyleRole::Dim),
            (server, StyleRole::Cyan),
            (" under an alias."@, StyleRole::Dim),
        ],
    ]
}

/// The daily-use cheat sheet and the shell-completion one-liners.
pub open spec fn cli_recap_lines() -> Seq<Seq<(Seq<char>, StyleRole)>> {
    seq![
        blank_spec(),
        seq![("  daily use stays in the CLI:"@, StyleRole::DimBright)],
        blank_spec(),
        seq![("    zz x"@, StyleRole::Cyan), ("          # unlock the profile in the agent"@, StyleRole::Dim)],
        seq![("    zz file.md"@, StyleRole::Cyan), ("    # upload"@, StyleRole::Dim)],
        seq![("    zz d file.md"@, StyleRole::Cyan), ("  # download"@, StyleRole::Dim)],
        seq![("    zz q"@, StyleRole::Cyan), ("          # lock"@, StyleRole::Dim)],
        blank_spec(),
        seq![("  optional · shell completion (one-off):"@, StyleRole::DimBright)],
        blank_spec(),
        seq![
            ("    zz --completions bash | source"@, StyleRole::Cyan),
            ("                         # bash"@, StyleRole::Dim),
        ],
        seq![("    zz --completions zsh  > ~/.zfunc/_zz"@, StyleRole::Cyan), ("                # zsh"@, StyleRole::Dim)],
        seq![
            ("    zz --completions fish > ~/.config/fish/completions/zz.fish"@, StyleRole::Cyan),
            (" # fish"@, StyleRole::Dim),
        ],
        blank_spec(),
        seq![
            ("  press "@, StyleRole::Dim),
            ("↵"@, StyleRole::AccentBold),
            (" to go back, "@, StyleRole::Dim),
            ("q"@, StyleRole::AccentBold),
            (" to exit."@, StyleRole::Dim),
        ],
    ]
}

/// The lines after a connection was added to a container.
pub open spec fn added_lines(alias: Seq<char>, path: Option<Seq<char>>) -> Seq<Seq<(Seq<char>, StyleRole)>> {
    seq![
        blank_spec(),
        seq![("  ✓ profile added to container"@, StyleRole::Good)],
        blank_spec(),
        seq![("  alias  "@, StyleRole::Dim), (alias, StyleRole::AccentBold)],
    ] + (match path {
        Some(p) => seq![seq![("  file   "@, StyleRole::Dim), (p, StyleRole::Cyan)]],
        None => Seq::empty(),
    }) + seq![
        blank_spec(),
        seq![
            ("  press "@, StyleRole::Dim),
            ("↵"@, StyleRole::AccentBold),
            (" to return to welcome."@, StyleRole::Dim),
        ],
    ]
}

/// The Done screen: its panel title, its accent and its lines.
pub open spec fn done_spec(
    path: Option<Seq<char>>,
    pushed: Option<(Seq<char>, u64, u64)>,
    server: Seq<char>,
    added_alias: Option<Seq<char>>,
) -> (Seq<char>, PanelAccent, Seq<Seq<(Seq<char>, StyleRole)>>) {
    match added_alias {
        Some(alias) => (" connection added "@, PanelAccent::Mint, added_lines(alias, path)),
        None => {
            let head = match pushed {
                Some((a, s, v)) => pushed_lines(a, s, v),
                None => local_only_lines(server),
            };
            let at = match path {
                Some(p) => seq![blank_spec(), seq![("  profile at:  "@, StyleRole::Dim), (p, StyleRole::Cyan)]],
                None => Seq::empty(),
            };
            (
                if pushed is Some {
                    " done "@
                } else {
                    " local profile saved · no recovery "@
                },
                if pushed is Some {
                    PanelAccent::Mint
                } else {
                    PanelAccent::Yellow
                },
                seq![blank_spec()] + head + at + cli_recap_lines(),
            )
        },
    }
}

fn append_lines(lines: &mut Vec<Vec<StyledSpan>>, more: Vec<Vec<StyledSpan>>)
    ensures
        lines_view(final(lines)@) == lines_view(old(lines)@) + lines_view(more@),
{
    let ghost target = lines_view(lines@) + lines_view(more@);
    let mut more = more;
    while more.len() > 0
        invariant
            lines_view(lines@) + lines_view(more@) == target,
        decreases more.len(),
    {
        let ghost m = more@;
        let l = more.remove(0);
        assert(lines_view(more@) =~= lines_view(m).drop_first());
        assert(lines_view(m)[0] == spans_view(l@));
        push_line(lines, l);
        assert(lines_view(lines@) + lines_view(more@) =~= target);
    }
    assert(lines_view(lines@) =~= target);
}

fn pushed_block(p: &PushedSummary) -> (v: Vec<Vec<StyledSpan>>)
    ensures
        lines_view(v@) == pushed_lines(p.alias@, p.blob_size, p.blob_version),
{
    let mut v: Vec<Vec<StyledSpan>> = Vec::new();
    push_line(&mut v, one("  ✓ setup complete", StyleRole::Good));
    push_line(&mut v, blank());
    push_line(&mut v, one("  the profile is now retrievable from any shell with ", StyleRole::Dim));
    let mut note = from_str("    # ");
    note.append(decimal(p.blob_size).as_str());
    note.append(" bytes, version ");
    note.append(decimal(p.blob_version).as_str());
    let mut l: Vec<StyledSpan> = Vec::new();
    l.push(span("    zz z ", StyleRole::Cyan));
    l.push(owned_span(p.alias.clone(), StyleRole::AccentBold));
    l.push(owned_span(note, StyleRole::Dim));
    assert(spans_view(l@) =~= pushed_lines(p.alias@, p.blob_size, p.blob_version)[3]);
    push_line(&mut v, l);
    assert(lines_view(v@) =~= pushed_lines(p.alias@, p.blob_size, p.blob_version));
    v
}

fn local_only_block(server: &str) -> (v: Vec<Vec<StyledSpan>>)
    ensures
        lines_view(v@) == local_only_lines(server@),
{
    let mut v: Vec<Vec<StyledSpan>> = Vec::new();
    push_line(&mut v, one("  ⚠  profile saved locally — not on any server", StyleRole::Warn));
    push_line(&mut v, blank());
    push_line(&mut v, one("  if you lose either", StyleRole::Body));
    push_line(&mut v, two("    • the file ", StyleRole::Body, "profiles-local.zz", StyleRole::Cyan));
    push_line(&mut v, one("    • the passphrase you just typed", StyleRole::Body));
    push_line(
        &mut v,
        two("  the contents are gone — ", StyleRole::Body, "there is no recovery.", StyleRole::Warn),
    );
    push_line(&mut v, blank());
    push_line(&mut v, one("  to make it recoverable from any shell:", StyleRole::Dim));
    let mut l: Vec<StyledSpan> = Vec::new();
    l.push(span("    • re-run ", StyleRole::Dim));
    l.push(span("zz-tui", StyleRole::Cyan));
    l.push(span(", choose ", StyleRole::Dim));
    l.push(span("Open local profile", StyleRole::AccentBold));
    l.push(span(",", StyleRole::Dim));
    assert(spans_view(l@) =~= local_only_lines(server@)[8]);
    push_line(&mut v, l);
    let mut l2: Vec<StyledSpan> = Vec::new();
    l2.push(span("      then press p to push it to ", StyleRole::Dim));
    l2.push(span(server, StyleRole::Cyan));
    l2.push(span(" under an alias.", StyleRole::Dim));
    assert(spans_view(l2@) =~= local_only_lines(server@)[9]);
    push_line(&mut v, l2);
    assert(lines_view(v@) =~= local_only_lines(server@));
    v
}

fn recap_block() -> (v: Vec<Vec<StyledSpan>>)
    ensures
        lines_view(v@) == cli_recap_lines(),
{
    let mut v: Vec<Vec<StyledSpan>> = Vec::new();
    push_line(&mut v, blank());
    push_line(&mut v, one("  daily use stays in the CLI:", StyleRole::DimBright));
    push_line(&mut v, blank());
    push_line(&mut v, two("    zz x", StyleRole::Cyan, "          # unlock the profile in the agent", StyleRole::Dim));
    push_line(&mut v, two("    zz file.md", StyleRole::Cyan, "    # upload", StyleRole::Dim));
    push_line(&mut v, two("    zz d file.md", StyleRole::Cyan, "  # download", StyleRole::Dim));
    push_line(&mut v, two("    zz q", StyleRole::Cyan, "          # lock", StyleRole::Dim));
    push_line(&mut v, blank());
    push_line(&mut v, one("  optional · shell completion (one-off):", StyleRole::DimBright));
    push_line(&mut v, blank());
    push_line(
        &mut v,
        two("    zz --completions bash | source", StyleRole::Cyan, "                         # bash", StyleRole::Dim),
    );
    push_line(
        &mut v,
        two("    zz --completions zsh  > ~/.zfunc/_zz", StyleRole::Cyan, "                # zsh", StyleRole::Dim),
    );
    push_line(
        &mut v,
        two(
            "    zz --completions fish > ~/.config/fish/completions/zz.fish",
            StyleRole::Cyan,
            " # fish",
            StyleRole::Dim,
        ),
    );
    push_line(&mut v, blank());
    let mut l: Vec<StyledSpan> = Vec::new();
    l.push(span("  press ", StyleRole::Dim));
    l.push(span("↵", StyleRole::AccentBold));
    l.push(span(" to go back, ", StyleRole::Dim));
    l.push(span("q", StyleRole::AccentBold));
    l.push(span(" to exit.", StyleRole::Dim));
    assert(spans_view(l@) =~= cli_recap_lines()[14]);
    push_line(&mut v, l);
    assert(lines_view(v@) =~= cli_recap_lines());
    v
}

pub open spec fn opt_summary_view(p: Option<PushedSummary>) -> Option<(Seq<char>, u64, u64)> {
    match p {
        Some(s) => Some((s.alias@, s.blob_size, s.blob_version)),
        None => None,
    }
}

pub open spec fn opt_text_view(p: Option<&str>) -> Option<Seq<char>> {
    match p {
        Some(s) => Some(s@),
        None => None,
    }
}

/// The Done screen's panel title, accent and lines.
pub fn done_content(
    profile_path: Option<&str>,
    pushed: Option<&PushedSummary>,
    server_label: &str,
    add_inner_alias: Option<&str>,
) -> (r: (&'static str, PanelAccent, Vec<Vec<StyledSpan>>))
    ensures
        (r.0@, r.1, lines_view(r.2@)) == done_spec(
            opt_text_view(profile_path),
            opt_summary_view(match pushed {
                Some(p) => Some(*p),
                None => None,
            }),
            server_label@,
            opt_text_view(add_inner_alias),
        ),
{
    match add_inner_alias {
        Some(alias) => {
            let mut v: Vec<Vec<StyledSpan>> = Vec::new();
            push_line(&mut v, blank());
            push_line(&mut v, one("  ✓ profile added to container", StyleRole::Good));
            push_line(&mut v, blank());
            push_line(&mut v, two("  alias  ", StyleRole::Dim, alias, StyleRole::AccentBold));
            match profile_path {
                Some(p) => push_line(&mut v, two("  file   ", StyleRole::Dim, p, StyleRole::Cyan)),
                None => {},
            }
            push_line(&mut v, blank());
            let mut l: Vec<StyledSpan> = Vec::new();
            l.push(span("  press ", StyleRole::Dim));
            l.push(span("↵", StyleRole::AccentBold));
            l.push(span(" to return to welcome.", StyleRole::Dim));
            assert(spans_view(l@) =~= seq![
                ("  press "@, StyleRole::Dim),
                ("↵"@, StyleRole::AccentBold),
                (" to return to welcome."@, StyleRole::Dim),
            ]);
            push_line(&mut v, l);
            assert(lines_view(v@) =~= added_lines(alias@, opt_text_view(profile_path)));
            (" connection added ", PanelAccent::Mint, v)
        },
        None => {
            let mut v: Vec<Vec<StyledSpan>> = Vec::new();
            push_line(&mut v, blank());
            let head = match pushed {
                Some(p) => pushed_block(p),
                None => local_only_block(server_label),
            };
            append_lines(&mut v, head);
            let ghost after_head = lines_view(v@);
            match profile_path {
                Some(p) => {
                    push_line(&mut v, blank());
                    push_line(&mut v, two("  profile at:  ", StyleRole::Dim, p, StyleRole::Cyan));
                },
                None => {},
            }
            append_lines(&mut v, recap_block());
            let ghost want = done_spec(
                opt_text_view(profile_path),
                opt_summary_view(match pushed {
                    Some(p) => Some(*p),
                    None => None,
                }),
                server_label@,
                None,
            );
            assert(lines_view(v@) =~= want.2);
            if pushed.is_some() {
                (" done ", PanelAccent::Mint, v)
            } else {
                (" local profile saved · no recovery ", PanelAccent::Yellow, v)
            }
        },
    }
}

/// A picker row: cursor, default star, alias, provider family, and a
/// default tag on the remembered alias.
pub open spec fn picker_row_spec(
    alias: Seq<char>,
    providers: Seq<crate::profile::ProviderProfileView>,
    selected: bool,
    default_alias: Option<Seq<char>>,
) -> Seq<(Seq<char>, StyleRole)> {
    let is_default = default_alias == Some(alias);
    seq![
        (if selected { "> "@ } else { "  "@ }, if selected { StyleRole::AccentBold } else { StyleRole::Dim }),
        (if is_default { "★ "@ } else { "  "@ }, if is_default { StyleRole::Cyan } else { StyleRole::Dim }),
        (alias, if selected {
            StyleRole::AccentBold
        } else if is_default {
            StyleRole::Header
        } else {
            StyleRole::Body
        }),
        ("   "@ + provider_summary_spec(providers), StyleRole::Dim),
    ] + if is_default {
        seq![("   · default"@, StyleRole::Cyan)]
    } else {
        Seq::empty()
    }
}

impl ContainerPickerScreen {
    /// The picker panel's title for a container of `count` profiles.
    pub fn panel_title(count: usize) -> (s: String)
        ensures
            s@ == " select profile ("@ + decimal_spec(count as nat) + " in container) "@,
    {
        let mut s = from_str(" select profile (");
        s.append(decimal(count as u64).as_str());
        s.append(" in container) ");
        s
    }

    /// One picker row.
    pub fn row_spans(profile: &PlainProfile, selected: bool, default_alias: Option<&str>) -> (v: Vec<
        StyledSpan,
    >)
        ensures
            spans_view(v@) == picker_row_spec(
                profile@.alias,
                profile@.providers,
                selected,
                opt_text_view(default_alias),
            ),
    {
        let is_default = match default_alias {
            Some(d) => str_eq(d, profile.alias.as_str()),
            None => false,
        };
        let mut v: Vec<StyledSpan> = Vec::new();
        if selected {
            v.push(span("> ", StyleRole::AccentBold));
        } else {
            v.push(span("  ", StyleRole::Dim));
        }
        if is_default {
            v.push(span("★ ", StyleRole::Cyan));
        } else {
            v.push(span("  ", StyleRole::Dim));
        }
        let role = if selected {
            StyleRole::AccentBold
        } else if is_default {
            StyleRole::Header
        } else {
            StyleRole::Body
        };
        v.push(owned_span(profile.alias.clone(), role));
        let mut label = from_str("   ");
        label.append(ContainerPickerScreen::provider_summary(profile));
        v.push(owned_span(label, StyleRole::Dim));
        if is_default {
            v.push(span("   · default", StyleRole::Cyan));
        }
        assert(spans_view(v@) =~= picker_row_spec(
            profile@.alias,
            profile@.providers,
            selected,
            opt_text_view(default_alias),
        ));
        v
    }
}

/// One row of the welcome menu.
pub enum MenuRow {
    /// A section header: its label and a dim subtitle.
    Section { label: String, subtitle: String },
    /// A selectable entry with its label and an optional hint.
    Entry { item: WelcomeItem, label: String, hint: Option<String> },
    /// An empty row between sections.
    Gap,
}

pub enum MenuRowView {
    Section { label: Seq<char>, subtitle: Seq<char> },
    Entry { item: WelcomeItem, label: Seq<char>, hint: Option<Seq<char>> },
    Gap,
}

impl View for MenuRow {
    type V = MenuRowView;

    open spec fn view(&self) -> MenuRowView {
        match self {
            MenuRow::Section { label, subtitle } => MenuRowView::Section { label: label@, subtitle: subtitle@ },
            MenuRow::Entry { item, label, hint } => MenuRowView::Entry {
                item: *item,
                label: label@,
                hint: match hint {
                    Some(h) => Some(h@),
                    None => None,
                },
            },
            MenuRow::Gap => MenuRowView::Gap,
        }
    }
}

pub open spec fn rows_view(v: Seq<MenuRow>) -> Seq<MenuRowView> {
    v.map_values(|r: MenuRow| r@)
}

/// The rows of the welcome menu: the local section (open, when the
/// container exists, and create or add), the server section when it is
/// offered (open, when the synced container exists, add, and sign in or
/// fetch), then quit; a gap after each section.
pub open spec fn menu_rows_spec(local: bool, remote: bool, remote_enabled: bool, server: Seq<char>) -> Seq<
    MenuRowView,
> {
    let local_rows = seq![
        MenuRowView::Section {
            label: "LOCAL"@,
            subtitle: "this machine only · no recovery if lost"@,
        },
    ] + (if local {
        seq![
            MenuRowView::Entry {
                item: WelcomeItem::OpenLocal,
                label: "Open local container"@,
                hint: Some("profiles-local.zz on this machine"@),
            },
        ]
    } else {
        Seq::empty()
    }) + seq![
        if local {
            MenuRowView::Entry {
                item: WelcomeItem::Configure,
                label: "Add profile to local container"@,
                hint: Some("appends a new connection to profiles-local.zz"@),
            }
        } else {
            MenuRowView::Entry {
                item: WelcomeItem::Configure,
                label: "Create local container"@,
                hint: Some("new profiles-local.zz · pick a provider"@),
            }
        },
        MenuRowView::Gap,
    ];
    let remote_rows = if remote_enabled {
        seq![
            MenuRowView::Section {
                label: "REMOTE"@,
                subtitle: "synced with "@ + server + " · recoverable from any shell"@,
            },
        ] + (if remote {
            seq![
                MenuRowView::Entry {
                    item: WelcomeItem::OpenRemote,
                    label: "Open synced container"@,
                    hint: Some("profiles-remote.zz · cached from "@ + server),
                },
            ]
        } else {
            Seq::empty()
        }) + seq![
            MenuRowView::Entry {
                item: WelcomeItem::ConfigureRemote,
                label: "Add to remote container"@,
                hint: Some("appends a new inner profile to "@ + server),
            },
            if remote {
                MenuRowView::Entry {
                    item: WelcomeItem::SignIn,
                    label: "Fetch the latest container from "@ + server,
                    hint: Some("overwrites profiles-remote.zz"@),
                }
            } else {
                MenuRowView::Entry {
                    item: WelcomeItem::SignIn,
                    label: "Sign in to "@ + server,
                    hint: Some("fetch the account's container into profiles-remote.zz"@),
                }
            },
            MenuRowView::Gap,
        ]
    } else {
        Seq::empty()
    };
    local_rows + remote_rows + seq![MenuRowView::Entry { item: WelcomeItem::Quit, label: "Quit"@, hint: None }]
}

fn push_row(rows: &mut Vec<MenuRow>, r: MenuRow)
    ensures
        rows_view(final(rows)@) == rows_view(old(rows)@).push(r@),
{
    let ghost before = rows@;
    let ghost rv = r@;
    rows.push(r);
    assert(rows_view(rows@) =~= rows_view(before).push(rv));
}

fn entry(item: WelcomeItem, label: String, hint: Option<String>) -> (r: MenuRow)
    ensures
        r@ == (MenuRowView::Entry {
            item,
            label: label@,
            hint: match hint {
                Some(h) => Some(h@),
                None => None,
            },
        }),
{
    MenuRow::Entry { item, label, hint }
}

fn joined(a: &str, b: &str) -> (s: String)
    ensures
        s@ == a@ + b@,
{
    let mut s = from_str(a);
    s.append(b);
    s
}

impl WelcomeScreen {
    /// The rows of the welcome menu.
    pub fn menu_rows(local_exists: bool, remote_exists: bool, remote_enabled: bool, server_label: &str) -> (v:
        Vec<MenuRow>)
        ensures
            rows_view(v@) == menu_rows_spec(local_exists, remote_exists, remote_enabled, server_label@),
    {
        let mut v: Vec<MenuRow> = Vec::new();
        push_row(
            &mut v,
            MenuRow::Section {
                label: from_str("LOCAL"),
                subtitle: from_str("this machine only · no recovery if lost"),
            },
        );
        if local_exists {
            push_row(
                &mut v,
                entry(
                    WelcomeItem::OpenLocal,
                    from_str("Open local container"),
                    Some(from_str("profiles-local.zz on this machine")),
                ),
            );
            push_row(
                &mut v,
                entry(
                    WelcomeItem::Configure,
                    from_str("Add profile to local container"),
                    Some(from_str("appends a new connection to profiles-local.zz")),
                ),
            );
        } else {
            push_row(
                &mut v,
                entry(
                    WelcomeItem::Configure,
                    from_str("Create local container"),
                    Some(from_str("new profiles-local.zz · pick a provider")),
                ),
            );
        }
        push_row(&mut v, MenuRow::Gap);
        let ghost local_part = rows_view(v@);
        if remote_enabled {
            let mut sub = from_str("synced with ");
            sub.append(server_label);
            sub.append(" · recoverable from any shell");
            push_row(&mut v, MenuRow::Section { label: from_str("REMOTE"), subtitle: sub });
            if remote_exists {
                push_row(
                    &mut v,
                    entry(
                        WelcomeItem::OpenRemote,
                        from_str("Open synced container"),
                        Some(joined("profiles-remote.zz · cached from ", server_label)),
                    ),
                );
            }
            push_row(
                &mut v,
                entry(
                    WelcomeItem::ConfigureRemote,
                    from_str("Add to remote container"),
                    Some(joined("appends a new inner profile to ", server_label)),
                ),
            );
            if remote_exists {
                push_row(
                    &mut v,
                    entry(
                        WelcomeItem::SignIn,
                        joined("Fetch the latest container from ", server_label),
                        Some(from_str("overwrites profiles-remote.zz")),
                    ),
                );
            } else {
                push_row(
                    &mut v,
                    entry(
                        WelcomeItem::SignIn,
                        joined("Sign in to ", server_label),
                        Some(from_str("fetch the account's container into profiles-remote.zz")),
                    ),
                );
            }
            push_row(&mut v, MenuRow::Gap);
        }
        push_row(&mut v, entry(WelcomeItem::Quit, from_str("Quit"), None));
        assert(rows_view(v@) =~= menu_rows_spec(local_exists, remote_exists, remote_enabled, server_label@));
        v
    }

    /// The line under the menu: where the containers live.
    pub fn footnote(config_dir_display: &str) -> (v: Vec<StyledSpan>)
        ensures
            spans_view(v@) == seq![
                ("profiles live in "@, StyleRole::Dim),
                (config_dir_display@, StyleRole::Cyan),
                (". encrypted at rest."@, StyleRole::Dim),
            ],
    {
        let mut v: Vec<StyledSpan> = Vec::new();
        v.push(span("profiles live in ", StyleRole::Dim));
        v.push(span(config_dir_display, StyleRole::Cyan));
        v.push(span(". encrypted at rest.", StyleRole::Dim));
        assert(spans_view(v@) =~= seq![
            ("profiles live in "@, StyleRole::Dim),
            (config_dir_display@, StyleRole::Cyan),
            (". encrypted at rest."@, StyleRole::Dim),
        ]);
        v
    }
}

/// The selectable items among menu rows, in order.
pub open spec fn row_items(rows: Seq<MenuRowView>) -> Seq<WelcomeItem>
    decreases rows.len(),
{
    if rows.len() == 0 {
        Seq::empty()
    } else {
        row_items(rows.drop_last()) + match rows.last() {
            MenuRowView::Entry { item, .. } => seq![item],
            _ => Seq::empty(),
        }
    }
}

proof fn lemma_row_items_concat(a: Seq<MenuRowView>, b: Seq<MenuRowView>)
    ensures
        row_items(a + b) == row_items(a) + row_items(b),
    decreases b.len(),
{
    if b.len() == 0 {
        assert(a + b =~= a);
        assert(row_items(b) =~= Seq::<WelcomeItem>::empty());
        assert(row_items(a) + row_items(b) =~= row_items(a));
    } else {
        lemma_row_items_concat(a, b.drop_last());
        assert((a + b).drop_last() =~= a + b.drop_last());
        assert((a + b).last() == b.last());
        assert(row_items(a + b) =~= row_items(a) + row_items(b));
    }
}

/// The welcome menu draws exactly the items the cursor moves over, in
/// the same order.
pub proof fn law_menu_rows_match_cursor_items(a: App)
    ensures
        row_items(menu_rows_spec(a.local_exists, a.remote_exists, a.remote_enabled, server_label_spec(a.api_base@)))
            == welcome_items_spec(a),
{
    let server = server_label_spec(a.api_base@);
    let rows = menu_rows_spec(a.local_exists, a.remote_exists, a.remote_enabled, server);
    reveal_with_fuel(row_items, 6);
    let sec = MenuRowView::Section { label: "LOCAL"@, subtitle: "this machine only · no recovery if lost"@ };
    let open_l: Seq<MenuRowView> = if a.local_exists {
        seq![
            MenuRowView::Entry {
                item: WelcomeItem::OpenLocal,
                label: "Open local container"@,
                hint: Some("profiles-local.zz on this machine"@),
            },
        ]
    } else {
        Seq::empty()
    };
    let conf = if a.local_exists {
        MenuRowView::Entry {
            item: WelcomeItem::Configure,
            label: "Add profile to local container"@,
            hint: Some("appends a new connection to profiles-local.zz"@),
        }
    } else {
        MenuRowView::Entry {
            item: WelcomeItem::Configure,
            label: "Create local container"@,
            hint: Some("new profiles-local.zz · pick a provider"@),
        }
    };
    let local_rows = seq![sec] + open_l + seq![conf, MenuRowView::Gap];
    lemma_row_items_concat(seq![sec], open_l);
    lemma_row_items_concat(seq![sec] + open_l, seq![conf, MenuRowView::Gap]);
    assert(row_items(seq![sec]) =~= Seq::<WelcomeItem>::empty());
    assert(row_items(seq![conf, MenuRowView::Gap]) =~= seq![WelcomeItem::Configure]);
    let quit = seq![MenuRowView::Entry { item: WelcomeItem::Quit, label: "Quit"@, hint: None }];
    assert(row_items(quit) =~= seq![WelcomeItem::Quit]);
    if a.remote_enabled {
        let rsec = MenuRowView::Section {
            label: "REMOTE"@,
            subtitle: "synced with "@ + server + " · recoverable from any shell"@,
        };
        let open_r: Seq<MenuRowView> = if a.remote_exists {
            seq![
                MenuRowView::Entry {
                    item: WelcomeItem::OpenRemote,
                    label: "Open synced container"@,
                    hint: Some("profiles-remote.zz · cached from "@ + server),
                },
            ]
        } else {
            Seq::empty()
        };
        let add_r = MenuRowView::Entry {
            item: WelcomeItem::ConfigureRemote,
            label: "Add to remote container"@,
            hint: Some("appends a new inner profile to "@ + server),
        };
        let sign = if a.remote_exists {
            MenuRowView::Entry {
                item: WelcomeItem::SignIn,
                label: "Fetch the latest container from "@ + server,
                hint: Some("overwrites profiles-remote.zz"@),
            }
        } else {
            MenuRowView::Entry {
                item: WelcomeItem::SignIn,
                label: "Sign in to "@ + server,
                hint: Some("fetch the account's container into profiles-remote.zz"@),
            }
        };
        let remote_rows = seq![rsec] + open_r + seq![add_r, sign, MenuRowView::Gap];
        lemma_row_items_concat(seq![rsec], open_r);
        lemma_row_items_concat(seq![rsec] + open_r, seq![add_r, sign, MenuRowView::Gap]);
        assert(row_items(seq![rsec]) =~= Seq::<WelcomeItem>::empty());
        assert(row_items(seq![add_r, sign, MenuRowView::Gap]) =~= seq![
            WelcomeItem::ConfigureRemote,
            WelcomeItem::SignIn,
        ]);
        lemma_row_items_concat(local_rows, remote_rows);
        lemma_row_items_concat(local_rows + remote_rows, quit);
        assert(rows =~= local_rows + remote_rows + quit);
    } else {
        lemma_row_items_concat(local_rows, Seq::empty());
        lemma_row_items_concat(local_rows + Seq::empty(), quit);
        assert(rows =~= local_rows + Seq::<MenuRowView>::empty() + quit);
    }
    assert(row_items(rows) =~= welcome_items_spec(a));
}

/// A panel: its title, its accent and its lines.
pub struct PanelText {
    pub title: &'static str,
    pub accent: PanelAccent,
    pub lines: Vec<Vec<StyledSpan>>,
}

pub open spec fn panel_view(p: PanelText) -> (Seq<char>, PanelAccent, Seq<Seq<(Seq<char>, StyleRole)>>) {
    (p.title@, p.accent, lines_view(p.lines@))
}

/// What the login-flow screen shows.
pub enum LoginFlowView {
    /// One panel across the screen.
    Single(PanelText),
    /// While polling: the left panel (a QR code when `qr`, else the
    /// instructions in its lines) and the right panel's link summary
    /// and status messages; the two status checks sit between them.
    Polling { left: PanelText, qr: bool, link: Vec<Vec<StyledSpan>>, messages: Vec<Vec<StyledSpan>> },
}

pub open spec fn opt_message(label: Seq<char>, m: Option<&'static str>) -> Seq<Seq<(Seq<char>, StyleRole)>> {
    match m {
        Some(t) => seq![seq![(label, StyleRole::Dim), (t@, StyleRole::DimBright)]],
        None => Seq::empty(),
    }
}

/// The login-flow screen for `state` against `server_url`.
pub open spec fn login_flow_spec(state: LoginFlowState, server_url: Seq<char>) -> (
    Option<(Seq<char>, PanelAccent, Seq<Seq<(Seq<char>, StyleRole)>>)>,
    bool,
    Seq<Seq<(Seq<char>, StyleRole)>>,
    Seq<Seq<(Seq<char>, StyleRole)>>,
) {
    if state.show_url_modal {
        (
            Some(
                (
                    " url detail "@,
                    PanelAccent::Cyan,
                    seq![
                        blank_spec(),
                        seq![("  full login URL:"@, StyleRole::Dim)],
                        blank_spec(),
                        seq![("  "@ + state.login_url@, StyleRole::Cyan)],
                        blank_spec(),
                        seq![("  esc closes this view; the polling continues"@, StyleRole::Dim)],
                        seq![("  in the background."@, StyleRole::Dim)],
                    ],
                ),
            ),
            false,
            Seq::empty(),
            Seq::empty(),
        )
    } else {
        match state.stage {
            LoginFlowStage::NotStarted | LoginFlowStage::Initiating => (
                Some(
                    (
                        " login flow "@,
                        PanelAccent::Mint,
                        seq![
                            blank_spec(),
                            seq![("  starting Nextcloud Login Flow…"@, StyleRole::AccentBold)],
                            blank_spec(),
                            seq![("  contacting "@, StyleRole::Dim), (server_url, StyleRole::Cyan)],
                            blank_spec(),
                            seq![("  this can take up to 30s if the server is slow."@, StyleRole::Dim)],
                            seq![("  press esc to cancel."@, StyleRole::Dim)],
                        ],
                    ),
                ),
                false,
                Seq::empty(),
                Seq::empty(),
            ),
            LoginFlowStage::Failed(msg) => (
                Some(
                    (
                        " login flow "@,
                        PanelAccent::Red,
                        seq![
                            blank_spec(),
                            seq![("  ✗ "@ + msg@, StyleRole::Danger)],
                            blank_spec(),
                            seq![("  server: "@, StyleRole::Dim), (server_url, StyleRole::Cyan)],
                            blank_spec(),
                            seq![
                                ("  press "@, StyleRole::Dim),
                                ("r"@, StyleRole::AccentBold),
                                (" to retry, "@, StyleRole::Dim),
                                ("esc"@, StyleRole::AccentBold),
                                (" to go back."@, StyleRole::Dim),
                            ],
                        ],
                    ),
                ),
                false,
                Seq::empty(),
                Seq::empty(),
            ),
            LoginFlowStage::Done => (
                Some(
                    (
                        " login flow "@,
                        PanelAccent::Mint,
                        seq![
                            blank_spec(),
                            seq![("  ✓ authorized"@, StyleRole::Good)],
                            blank_spec(),
                            seq![("  press enter to continue."@, StyleRole::Dim)],
                        ],
                    ),
                ),
                false,
                Seq::empty(),
                Seq::empty(),
            ),
            LoginFlowStage::Polling => (
                Some(
                    (
                        if state.show_qr {
                            " authorize with phone "@
                        } else {
                            " open on any device "@
                        },
                        PanelAccent::Mint,
                        if state.show_qr {
                            Seq::empty()
                        } else {
                            seq![
                                blank_spec(),
                                seq![("  open the link (right panel) on any"@, StyleRole::Body)],
                                seq![("  device with a browser, then authorize"@, StyleRole::Body)],
                                seq![("  zz-drop in Nextcloud."@, StyleRole::Body)],
                                blank_spec(),
                                seq![("  press q to show a QR for this URL."@, StyleRole::Dim)],
                            ]
                        },
                    ),
                ),
                state.show_qr,
                seq![
                    seq![("  authorization url"@, StyleRole::Dim)],
                    seq![
                        ("  "@, StyleRole::Dim),
                        (url_host_spec(state.login_url@), StyleRole::Cyan),
                        ("  ·  press "@, StyleRole::Dim),
                        ("u"@, StyleRole::AccentBold),
                        (" for full URL"@, StyleRole::Dim),
                    ],
                    seq![("  status"@, StyleRole::Dim)],
                ],
                opt_message("  clipboard: "@, state.clipboard_message) + opt_message(
                    "  browser:   "@,
                    state.browser_message,
                ),
            ),
        }
    }
}

pub open spec fn login_flow_view_spec(v: LoginFlowView) -> (
    Option<(Seq<char>, PanelAccent, Seq<Seq<(Seq<char>, StyleRole)>>)>,
    bool,
    Seq<Seq<(Seq<char>, StyleRole)>>,
    Seq<Seq<(Seq<char>, StyleRole)>>,
) {
    match v {
        LoginFlowView::Single(p) => (Some(panel_view(p)), false, Seq::empty(), Seq::empty()),
        LoginFlowView::Polling { left, qr, link, messages } => (
            Some(panel_view(left)),
            qr,
            lines_view(link@),
            lines_view(messages@),
        ),
    }
}

fn labelled(label: &str, m: Option<&'static str>) -> (v: Vec<Vec<StyledSpan>>)
    ensures
        lines_view(v@) == opt_message(label@, m),
{
    let mut v: Vec<Vec<StyledSpan>> = Vec::new();
    match m {
        Some(t) => push_line(&mut v, two(label, StyleRole::Dim, t, StyleRole::DimBright)),
        None => {},
    }
    assert(lines_view(v@) =~= opt_message(label@, m));
    v
}

pub(crate) fn joined_span(a: &str, b: &str, role: StyleRole) -> (s: StyledSpan)
    ensures
        s.text@ == a@ + b@,
        s.role == role,
{
    let mut t = from_str(a);
    t.append(b);
    StyledSpan { text: t, role }
}

impl NextcloudLoginFlowScreen {
    /// The width of the left pane: enough for the half-block QR code
    /// of `url`, at least 44 cells.
    pub fn left_pane_width(url: &str) -> (w: u16)
        ensures
            w == match qr_symbol_of(url@) {
                Some((m, _)) => if outer_size_spec(m).0 > 44 { outer_size_spec(m).0 } else { 44 },
                None => 44,
            },
    {
        match qr_outer_size(url) {
            Some((w, _)) => if w > 44 { w } else { 44 },
            None => 44,
        }
    }

    /// What the login-flow screen shows for `state`.
    pub fn content(state: &LoginFlowState, server_url: &str) -> (v: LoginFlowView)
        ensures
            login_flow_view_spec(v) == login_flow_spec(*state, server_url@),
    {
        if state.show_url_modal {
            let mut v: Vec<Vec<StyledSpan>> = Vec::new();
            push_line(&mut v, blank());
            push_line(&mut v, one("  full login URL:", StyleRole::Dim));
            push_line(&mut v, blank());
            let mut l: Vec<StyledSpan> = Vec::new();
            l.push(joined_span("  ", state.login_url.as_str(), StyleRole::Cyan));
            assert(spans_view(l@) =~= seq![("  "@ + state.login_url@, StyleRole::Cyan)]);
            push_line(&mut v, l);
            push_line(&mut v, blank());
            push_line(&mut v, one("  esc closes this view; the polling continues", StyleRole::Dim));
            push_line(&mut v, one("  in the background.", StyleRole::Dim));
            let ghost want = login_flow_spec(*state, server_url@);
            assert(lines_view(v@) =~= want.0.unwrap().2);
            return LoginFlowView::Single(PanelText { title: " url detail ", accent: PanelAccent::Cyan, lines: v });
        }
        match &state.stage {
            LoginFlowStage::NotStarted | LoginFlowStage::Initiating => {
                let mut v: Vec<Vec<StyledSpan>> = Vec::new();
                push_line(&mut v, blank());
                push_line(&mut v, one("  starting Nextcloud Login Flow…", StyleRole::AccentBold));
                push_line(&mut v, blank());
                push_line(&mut v, two("  contacting ", StyleRole::Dim, server_url, StyleRole::Cyan));
                push_line(&mut v, blank());
                push_line(&mut v, one("  this can take up to 30s if the server is slow.", StyleRole::Dim));
                push_line(&mut v, one("  press esc to cancel.", StyleRole::Dim));
                let ghost want = login_flow_spec(*state, server_url@);
                assert(lines_view(v@) =~= want.0.unwrap().2);
                LoginFlowView::Single(PanelText { title: " login flow ", accent: PanelAccent::Mint, lines: v })
            },
            LoginFlowStage::Failed(msg) => {
                let mut v: Vec<Vec<StyledSpan>> = Vec::new();
                push_line(&mut v, blank());
                let mut l: Vec<StyledSpan> = Vec::new();
                l.push(joined_span("  ✗ ", msg.as_str(), StyleRole::Danger));
                assert(spans_view(l@) =~= seq![("  ✗ "@ + msg@, StyleRole::Danger)]);
                push_line(&mut v, l);
                push_line(&mut v, blank());
                push_line(&mut v, two("  server: ", StyleRole::Dim, server_url, StyleRole::Cyan));
                push_line(&mut v, blank());
                let mut l2: Vec<StyledSpan> = Vec::new();
                l2.push(span("  press ", StyleRole::Dim));
                l2.push(span("r", StyleRole::AccentBold));
                l2.push(span(" to retry, ", StyleRole::Dim));
                l2.push(span("esc", StyleRole::AccentBold));
                l2.push(span(" to go back.", StyleRole::Dim));
                assert(spans_view(l2@) =~= seq![
                    ("  press "@, StyleRole::Dim),
                    ("r"@, StyleRole::AccentBold),
                    (" to retry, "@, StyleRole::Dim),
                    ("esc"@, StyleRole::AccentBold),
                    (" to go back."@, StyleRole::Dim),
                ]);
                push_line(&mut v, l2);
                let ghost want = login_flow_spec(*state, server_url@);
                assert(lines_view(v@) =~= want.0.unwrap().2);
                LoginFlowView::Single(PanelText { title: " login flow ", accent: PanelAccent::Red, lines: v })
            },
            LoginFlowStage::Done => {
                let mut v: Vec<Vec<StyledSpan>> = Vec::new();
                push_line(&mut v, blank());
                push_line(&mut v, one("  ✓ authorized", StyleRole::Good));
                push_line(&mut v, blank());
                push_line(&mut v, one("  press enter to continue.", StyleRole::Dim));
                let ghost want = login_flow_spec(*state, server_url@);
                assert(lines_view(v@) =~= want.0.unwrap().2);
                LoginFlowView::Single(PanelText { title: " login flow ", accent: PanelAccent::Mint, lines: v })
            },
            LoginFlowStage::Polling => {
                let mut left: Vec<Vec<StyledSpan>> = Vec::new();
                if !state.show_qr {
                    push_line(&mut left, blank());
                    push_line(&mut left, one("  open the link (right panel) on any", StyleRole::Body));
                    push_line(&mut left, one("  device with a browser, then authorize", StyleRole::Body));
                    push_line(&mut left, one("  zz-drop in Nextcloud.", StyleRole::Body));
                    push_line(&mut left, blank());
                    push_line(&mut left, one("  press q to show a QR for this URL.", StyleRole::Dim));
                }
                let mut link: Vec<Vec<StyledSpan>> = Vec::new();
                push_line(&mut link, one("  authorization url", StyleRole::Dim));
                let mut l: Vec<StyledSpan> = Vec::new();
                l.push(span("  ", StyleRole::Dim));
                l.push(owned_span(state.login_url_host(), StyleRole::Cyan));
                l.push(span("  ·  press ", StyleRole::Dim));
                l.push(span("u", StyleRole::AccentBold));
                l.push(span(" for full URL", StyleRole::Dim));
                assert(spans_view(l@) =~= seq![
                    ("  "@, StyleRole::Dim),
                    (url_host_spec(state.login_url@), StyleRole::Cyan),
                    ("  ·  press "@, StyleRole::Dim),
                    ("u"@, StyleRole::AccentBold),
                    (" for full URL"@, StyleRole::Dim),
                ]);
                push_line(&mut link, l);
                push_line(&mut link, one("  status", StyleRole::Dim));
                let mut messages = labelled("  clipboard: ", state.clipboard_message);
                append_lines(&mut messages, labelled("  browser:   ", state.browser_message));
                let ghost want = login_flow_spec(*state, server_url@);
                assert(lines_view(left@) =~= want.0.unwrap().2);
                assert(lines_view(link@) =~= want.2);
                let title = if state.show_qr {
                    " authorize with phone "
                } else {
                    " open on any device "
                };
                LoginFlowView::Polling {
                    left: PanelText { title, accent: PanelAccent::Mint, lines: left },
                    qr: state.show_qr,
                    link,
                    messages,
                }
            },
        }
    }
}

/// The passphrase screen's one-panel stages: encrypting, saved (with
/// the path and the offer to push), failed; `None` while editing.
pub open spec fn passphrase_panel_spec(stage: PassphraseStageView, server: Seq<char>) -> Option<
    (Seq<char>, PanelAccent, Seq<Seq<(Seq<char>, StyleRole)>>),
> {
    match stage {
        PassphraseStageView::Encrypting => Some(
            (
                " profile passphrase "@,
                PanelAccent::Mint,
                seq![
                    blank_spec(),
                    seq![("  encrypting profile…"@, StyleRole::AccentBold)],
                    blank_spec(),
                    seq![("  Argon2id ~500 ms – 1 s — this is intentional."@, StyleRole::Dim)],
                ],
            ),
        ),
        PassphraseStageView::Saved(path) => Some(
            (
                " profile saved "@,
                PanelAccent::Mint,
                seq![
                    blank_spec(),
                    seq![("  ✓ profile saved"@, StyleRole::Good)],
                    blank_spec(),
                    seq![("  "@, StyleRole::Dim), (path, StyleRole::Cyan)],
                    blank_spec(),
                    seq![("  the encrypted blob is on this machine only."@, StyleRole::Body)],
                    blank_spec(),
                    seq![
                        ("  push it to "@, StyleRole::Body),
                        (server, StyleRole::Cyan),
                        (" so it can be retrieved"@, StyleRole::Body),
                    ],
                    seq![("  from any shell with `zz z <alias>`?"@, StyleRole::Body)],
                    blank_spec(),
                    seq![
                        ("  press "@, StyleRole::Dim),
                        ("p"@, StyleRole::AccentBold),
                        (" to push, "@, StyleRole::Dim),
                        ("↵"@, StyleRole::AccentBold),
                        (" to skip (local-only)."@, StyleRole::Dim),
                    ],
                ],
            ),
        ),
        PassphraseStageView::Failed(reason) => Some(
            (
                " profile passphrase "@,
                PanelAccent::Red,
                seq![
                    blank_spec(),
                    seq![("  ✗ save failed: "@ + reason, StyleRole::Danger)],
                    blank_spec(),
                    seq![("  press esc to go back and try again."@, StyleRole::Dim)],
                ],
            ),
        ),
        _ => None,
    }
}

/// The check under the passphrase fields: a mismatch once the
/// confirmation is typed, a match once both agree, else a prompt.
pub open spec fn passphrase_check_spec(pass: Seq<char>, confirm: Seq<char>) -> (CheckStatus, Seq<char>) {
    if confirm.len() > 0 && pass != confirm {
        (CheckStatus::Fail, "passphrases do not match"@)
    } else if pass.len() > 0 && pass == confirm {
        (CheckStatus::Pass, "passphrases match"@)
    } else {
        (CheckStatus::Skip, "type a passphrase"@)
    }
}

/// The panel beside the passphrase fields: the weak-passphrase warning,
/// or the no-recovery notice.
pub open spec fn passphrase_side_spec(weak_warning: bool, server: Seq<char>) -> (
    Seq<char>,
    PanelAccent,
    Seq<Seq<(Seq<char>, StyleRole)>>,
) {
    if weak_warning {
        (
            " weak passphrase "@,
            PanelAccent::Yellow,
            seq![
                blank_spec(),
                seq![("if someone gets profiles-local.zz, they can try an offline attack."@, StyleRole::Body)],
                blank_spec(),
                seq![("recommended: 12+ characters."@, StyleRole::Dim)],
                blank_spec(),
                seq![
                    ("press "@, StyleRole::Dim),
                    ("y"@, StyleRole::Warn),
                    (" to continue, "@, StyleRole::Dim),
                    ("n"@, StyleRole::Dim),
                    (" to edit."@, StyleRole::Dim),
                ],
            ],
        )
    } else {
        (
            " before you continue "@,
            PanelAccent::Yellow,
            seq![
                blank_spec(),
                seq![("⚠  this is a local-only profile."@, StyleRole::Warn)],
                blank_spec(),
                seq![("if you lose either:"@, StyleRole::Body)],
                seq![("  • the file "@, StyleRole::Body), ("profiles-local.zz"@, StyleRole::Cyan)],
                seq![("  • the passphrase you pick now"@, StyleRole::Body)],
                blank_spec(),
                seq![("the contents are gone — "@, StyleRole::Body), ("there is no recovery."@, StyleRole::Warn)],
                blank_spec(),
                seq![
                    ("to make it recoverable, sign in to "@, StyleRole::Dim),
                    (server, StyleRole::Cyan),
                    (" afterwards and push it under an alias."@, StyleRole::Dim),
                ],
                blank_spec(),
                seq![("12+ characters recommended."@, StyleRole::Dim)],
            ],
        )
    }
}

pub(crate) fn five(
    t1: &str,
    r1: StyleRole,
    t2: &str,
    r2: StyleRole,
    t3: &str,
    r3: StyleRole,
    t4: &str,
    r4: StyleRole,
    t5: &str,
    r5: StyleRole,
) -> (l: Vec<StyledSpan>)
    ensures
        spans_view(l@) == seq![(t1@, r1), (t2@, r2), (t3@, r3), (t4@, r4), (t5@, r5)],
{
    let mut l = Vec::new();
    l.push(span(t1, r1));
    l.push(span(t2, r2));
    l.push(span(t3, r3));
    l.push(span(t4, r4));
    l.push(span(t5, r5));
    assert(spans_view(l@) =~= seq![(t1@, r1), (t2@, r2), (t3@, r3), (t4@, r4), (t5@, r5)]);
    l
}

pub(crate) fn three(t1: &str, r1: StyleRole, t2: &str, r2: StyleRole, t3: &str, r3: StyleRole) -> (l: Vec<StyledSpan>)
    ensures
        spans_view(l@) == seq![(t1@, r1), (t2@, r2), (t3@, r3)],
{
    let mut l = Vec::new();
    l.push(span(t1, r1));
    l.push(span(t2, r2));
    l.push(span(t3, r3));
    assert(spans_view(l@) =~= seq![(t1@, r1), (t2@, r2), (t3@, r3)]);
    l
}

pub open spec fn opt_panel_view(p: Option<PanelText>) -> Option<
    (Seq<char>, PanelAccent, Seq<Seq<(Seq<char>, StyleRole)>>),
> {
    match p {
        Some(x) => Some(panel_view(x)),
        None => None,
    }
}

impl ProfilePassphraseScreen {
    /// The one panel shown while encrypting, once saved, or after a
    /// failure; `None` while the passphrase is being typed.
    pub fn stage_panel(stage: &PassphraseStage, server_label: &str) -> (p: Option<PanelText>)
        ensures
            opt_panel_view(p) == passphrase_panel_spec(stage@, server_label@),
    {
        match stage {
            PassphraseStage::Encrypting => {
                let mut v: Vec<Vec<StyledSpan>> = Vec::new();
                push_line(&mut v, blank());
                push_line(&mut v, one("  encrypting profile…", StyleRole::AccentBold));
                push_line(&mut v, blank());
                push_line(&mut v, one("  Argon2id ~500 ms – 1 s — this is intentional.", StyleRole::Dim));
                assert(lines_view(v@) =~= passphrase_panel_spec(stage@, server_label@).unwrap().2);
                Some(PanelText { title: " profile passphrase ", accent: PanelAccent::Mint, lines: v })
            },
            PassphraseStage::Saved(path) => {
                let mut v: Vec<Vec<StyledSpan>> = Vec::new();
                push_line(&mut v, blank());
                push_line(&mut v, one("  ✓ profile saved", StyleRole::Good));
                push_line(&mut v, blank());
                push_line(&mut v, two("  ", StyleRole::Dim, path.as_str(), StyleRole::Cyan));
                push_line(&mut v, blank());
                push_line(&mut v, one("  the encrypted blob is on this machine only.", StyleRole::Body));
                push_line(&mut v, blank());
                push_line(
                    &mut v,
                    three("  push it to ", StyleRole::Body, server_label, StyleRole::Cyan, " so it can be retrieved", StyleRole::Body),
                );
                push_line(&mut v, one("  from any shell with `zz z <alias>`?", StyleRole::Body));
                push_line(&mut v, blank());
                push_line(
                    &mut v,
                    five(
                        "  press ",
                        StyleRole::Dim,
                        "p",
                        StyleRole::AccentBold,
                        " to push, ",
                        StyleRole::Dim,
                        "↵",
                        StyleRole::AccentBold,
                        " to skip (local-only).",
                        StyleRole::Dim,
                    ),
                );
                assert(lines_view(v@) =~= passphrase_panel_spec(stage@, server_label@).unwrap().2);
                Some(PanelText { title: " profile saved ", accent: PanelAccent::Mint, lines: v })
            },
            PassphraseStage::Failed(reason) => {
                let mut v: Vec<Vec<StyledSpan>> = Vec::new();
                push_line(&mut v, blank());
                let mut l: Vec<StyledSpan> = Vec::new();
                l.push(joined_span("  ✗ save failed: ", reason.as_str(), StyleRole::Danger));
                assert(spans_view(l@) =~= seq![("  ✗ save failed: "@ + reason@, StyleRole::Danger)]);
                push_line(&mut v, l);
                push_line(&mut v, blank());
                push_line(&mut v, one("  press esc to go back and try again.", StyleRole::Dim));
                assert(lines_view(v@) =~= passphrase_panel_spec(stage@, server_label@).unwrap().2);
                Some(PanelText { title: " profile passphrase ", accent: PanelAccent::Red, lines: v })
            },
            _ => None,
        }
    }

    /// The check row under the two fields.
    pub fn match_check(passphrase: &str, confirm: &str) -> (r: (CheckStatus, &'static str))
        ensures
            (r.0, r.1@) == passphrase_check_spec(passphrase@, confirm@),
    {
        let same = str_eq(passphrase, confirm);
        if !confirm.is_empty() && !same {
            (CheckStatus::Fail, "passphrases do not match")
        } else if !passphrase.is_empty() && same {
            (CheckStatus::Pass, "passphrases match")
        } else {
            (CheckStatus::Skip, "type a passphrase")
        }
    }

    /// The panel beside the fields.
    pub fn side_panel(weak_warning: bool, server_label: &str) -> (p: PanelText)
        ensures
            panel_view(p) == passphrase_side_spec(weak_warning, server_label@),
    {
        let mut v: Vec<Vec<StyledSpan>> = Vec::new();
        if weak_warning {
            push_line(&mut v, blank());
            push_line(
                &mut v,
                one("if someone gets profiles-local.zz, they can try an offline attack.", StyleRole::Body),
            );
            push_line(&mut v, blank());
            push_line(&mut v, one("recommended: 12+ characters.", StyleRole::Dim));
            push_line(&mut v, blank());
            push_line(
                &mut v,
                five(
                    "press ",
                    StyleRole::Dim,
                    "y",
                    StyleRole::Warn,
                    " to continue, ",
                    StyleRole::Dim,
                    "n",
                    StyleRole::Dim,
                    " to edit.",
                    StyleRole::Dim,
                ),
            );
            assert(lines_view(v@) =~= passphrase_side_spec(weak_warning, server_label@).2);
            PanelText { title: " weak passphrase ", accent: PanelAccent::Yellow, lines: v }
        } else {
            push_line(&mut v, blank());
            push_line(&mut v, one("⚠  this is a local-only profile.", StyleRole::Warn));
            push_line(&mut v, blank());
            push_line(&mut v, one("if you lose either:", StyleRole::Body));
            push_line(&mut v, two("  • the file ", StyleRole::Body, "profiles-local.zz", StyleRole::Cyan));
            push_line(&mut v, one("  • the passphrase you pick now", StyleRole::Body));
            push_line(&mut v, blank());
            push_line(
                &mut v,
                two("the contents are gone — ", StyleRole::Body, "there is no recovery.", StyleRole::Warn),
            );
            push_line(&mut v, blank());
            push_line(
                &mut v,
                three(
                    "to make it recoverable, sign in to ",
                    StyleRole::Dim,
                    server_label,
                    StyleRole::Cyan,
                    " afterwards and push it under an alias.",
                    StyleRole::Dim,
                ),
            );
            push_line(&mut v, blank());
            push_line(&mut v, one("12+ characters recommended.", StyleRole::Dim));
            assert(lines_view(v@) =~= passphrase_side_spec(weak_warning, server_label@).2);
            PanelText { title: " before you continue ", accent: PanelAccent::Yellow, lines: v }
        }
    }
}

impl NextcloudLoginFlowScreen {
    /// The two checks under "status" while polling: the poll endpoint
    /// answered, the user's grant is awaited.
    pub fn status_checks() -> (v: Vec<(CheckStatus, &'static str, &'static str)>)
        ensures
            v@.map_values(|r: (CheckStatus, &'static str, &'static str)| (r.0, r.1@, r.2@)) == seq![
                (CheckStatus::Pass, "poll endpoint"@, "reachable"@),
                (CheckStatus::Busy, "user grant"@, "awaiting"@),
            ],
    {
        let mut v: Vec<(CheckStatus, &'static str, &'static str)> = Vec::new();
        v.push((CheckStatus::Pass, "poll endpoint", "reachable"));
        v.push((CheckStatus::Busy, "user grant", "awaiting"));
        assert(v@.map_values(|r: (CheckStatus, &'static str, &'static str)| (r.0, r.1@, r.2@)) =~= seq![
            (CheckStatus::Pass, "poll endpoint"@, "reachable"@),
            (CheckStatus::Busy, "user grant"@, "awaiting"@),
        ]);
        v
    }
}

/// Which step band the frame shows.
pub enum StepBand {
    /// The wizard's eight steps, with the active one.
    Wizard(usize),
    /// The add-a-connection flow's six steps, with the active one.
    AddInner(usize),
}

/// A probe re-run from the manage screen is a manage action, not a
/// setup step.
pub open spec fn manage_retest_spec(a: App) -> bool {
    a.screen == Screen::TestUpload && a.test_upload_back is Some
}

/// The step band over the body: none during a manage re-test; in the
/// add-a-connection flow its own steps where the screen has one; else
/// the wizard's steps where the screen has one.
pub open spec fn step_band_spec(a: App) -> Option<StepBand> {
    if manage_retest_spec(a) {
        None
    } else if a.wizard_mode == WizardMode::AddInnerProfile {
        match add_inner_stepper_index_spec(a.screen) {
            Some(i) => Some(StepBand::AddInner(i)),
            None => None,
        }
    } else {
        match a.screen.stepper_index_spec() {
            Some(i) => Some(StepBand::Wizard(i)),
            None => None,
        }
    }
}

/// `v` is the labelled step band `b`.
pub open spec fn band_labels(v: Seq<(&'static str, StepState)>, b: StepBand) -> bool {
    match b {
        StepBand::Wizard(active) => {
            &&& v.len() == 8
            &&& forall|i: int|
                0 <= i < 8 ==> (#[trigger] v[i]).0@ == step_label_spec(i) && v[i].1 == step_state_spec(
                    Some(active),
                    i,
                )
        },
        StepBand::AddInner(active) => {
            &&& v.len() == 6
            &&& forall|i: int|
                0 <= i < 6 ==> (#[trigger] v[i]).0@ == add_inner_label_spec(i) && v[i].1
                    == step_state_spec(Some(active), i)
        },
    }
}

/// The top of the frame for `app`: the breadcrumb in the title bar and
/// the labelled step band, if any.
pub fn frame_header(app: &App) -> (r: (&'static str, Option<Vec<(&'static str, StepState)>>))
    ensures
        r.0@ == if manage_retest_spec(*app) {
            "manage › probe"@
        } else {
            breadcrumb_spec(app.screen)
        },
        match (r.1, step_band_spec(*app)) {
            (Some(v), Some(b)) => band_labels(v@, b),
            (None, None) => true,
            _ => false,
        },
{
    let retest = app.screen == Screen::TestUpload && app.test_upload_back.is_some();
    let crumb = breadcrumb_in_context(app.screen, retest);
    if retest {
        return (crumb, None);
    }
    if app.wizard_mode == WizardMode::AddInnerProfile {
        match add_inner_stepper_index(app.screen) {
            Some(i) => (crumb, Some(build_add_inner_step_labels(i))),
            None => (crumb, None),
        }
    } else if screen_shows_steps(app.screen) {
        (crumb, Some(build_step_labels(app.screen.stepper_index())))
    } else {
        (crumb, None)
    }
}

} // verus!
