//! What the setup screens show: the provider and collision choices,
//! the authentication method, the probe checklist and the Dropbox
//! paste-code stages, as rows and lines of styled text.

use vstd::prelude::*;
use crate::content::{
    PanelText, StyledSpan, blank, blank_spec, joined_span, lines_view, one, owned_span,
    panel_view, push_line, span, spans_view, two,
};
use crate::qr::{outer_size_spec, qr_symbol_of};
use crate::app::ProfileSource;
use crate::screens::{
    AuthFocus, LoginTotpScreen, ProfileUnlockScreen, CollisionScreen, NextcloudAuthScreen, NextcloudLoginFlowScreen, ProviderScreen,
    SetupDropboxScreen, TestUploadScreen, map_status,
};
use crate::widgets::CheckStatus;
use crate::theme::{PanelAccent, StyleRole};
use crate::wizard::{
    AuthKind, CollisionChoice, ManageStage, PushStage, PushStageView, DropboxSetupStage, DropboxSetupState, DropboxSetupView,
    DropboxStageView, ProbeProgress, ProbeStepStatus, ProviderKind, TestOutcome, TestOutcomeView,
    pasted_code_ok,
};

verus! {

/// What the Dropbox screen shows.
pub enum DropboxView {
    /// One panel across the screen.
    Single(PanelText),
    /// Waiting for the code: the instructions panel (its lines stop
    /// above the code field), whether a QR panel stands beside it, and
    /// the hint drawn under the field.
    AwaitingPaste { panel: PanelText, qr: bool, hint: Vec<StyledSpan> },
}

pub type PanelSpec = (Seq<char>, PanelAccent, Seq<Seq<(Seq<char>, StyleRole)>>);

/// The hint under the code field.
pub open spec fn dropbox_hint_spec(pasted: Seq<char>) -> Seq<char> {
    if pasted_code_ok(pasted) {
        "  press ↵ to exchange the code for tokens."@
    } else {
        "  type or ctrl-v to paste, then press ↵ to exchange."@
    }
}

/// The Dropbox screen for `s`: the panel, and, while waiting for the
/// code, whether the QR is shown and the hint line.
pub open spec fn dropbox_content_spec(s: DropboxSetupView) -> (PanelSpec, Option<(bool, Seq<(Seq<char>, StyleRole)>)>) {
    if s.show_url_modal {
        (
            (
                " authorize url "@,
                PanelAccent::Mint,
                seq![
                    blank_spec(),
                    seq![("  full Dropbox authorize URL:"@, StyleRole::AccentBold)],
                    blank_spec(),
                    seq![("  "@ + s.authorize_url, StyleRole::Cyan)],
                    blank_spec(),
                    seq![("  esc closes this overlay."@, StyleRole::Dim)],
                ],
            ),
            None,
        )
    } else {
        match s.stage {
            DropboxStageView::NotStarted | DropboxStageView::Initiating => (
                (
                    " paste-code "@,
                    PanelAccent::Mint,
                    seq![
                        blank_spec(),
                        seq![("  preparing Dropbox authorization URL…"@, StyleRole::AccentBold)],
                        blank_spec(),
                        seq![("  press esc to cancel."@, StyleRole::Dim)],
                    ],
                ),
                None,
            ),
            DropboxStageView::AwaitingPaste => (
                (
                    " paste-code "@,
                    PanelAccent::Mint,
                    seq![
                        blank_spec(),
                        seq![("  open the URL on any device with a browser:"@, StyleRole::AccentBold)],
                        blank_spec(),
                        seq![("  "@, StyleRole::Dim), (s.authorize_url, StyleRole::Cyan)],
                        blank_spec(),
                        seq![("  approve, copy the code Dropbox shows, paste it here:"@, StyleRole::Dim)],
                    ],
                ),
                Some((s.show_qr, seq![(dropbox_hint_spec(s.pasted_code.value), StyleRole::Dim)])),
            ),
            DropboxStageView::Exchanging => (
                (
                    " paste-code "@,
                    PanelAccent::Mint,
                    seq![blank_spec(), seq![("  exchanging code for tokens…"@, StyleRole::AccentBold)]],
                ),
                None,
            ),
            DropboxStageView::Fetching => (
                (
                    " paste-code "@,
                    PanelAccent::Mint,
                    seq![blank_spec(), seq![("  resolving Dropbox account…"@, StyleRole::AccentBold)]],
                ),
                None,
            ),
            DropboxStageView::Done => (
                (
                    " dropbox "@,
                    PanelAccent::Mint,
                    seq![
                        blank_spec(),
                        seq![("  signed in."@, StyleRole::AccentBold)],
                        blank_spec(),
                        seq![("  account: "@, StyleRole::Dim), (s.user_email, StyleRole::Cyan)],
                        seq![("  folder:  "@, StyleRole::Dim), ("Apps/zz-drop/"@ + s.root_folder, StyleRole::Cyan)],
                    ],
                ),
                None,
            ),
            DropboxStageView::Failed(msg) => (
                (
                    " paste-code "@,
                    PanelAccent::Red,
                    seq![
                        blank_spec(),
                        seq![("  setup failed."@, StyleRole::Danger)],
                        blank_spec(),
                        seq![("  reason: "@, StyleRole::Dim), (msg, StyleRole::Danger)],
                        blank_spec(),
                        seq![("  press r to retry, esc to go back."@, StyleRole::Dim)],
                    ],
                ),
                None,
            ),
        }
    }
}

pub open spec fn dropbox_view_spec(v: DropboxView) -> (PanelSpec, Option<(bool, Seq<(Seq<char>, StyleRole)>)>) {
    match v {
        DropboxView::Single(p) => (panel_view(p), None),
        DropboxView::AwaitingPaste { panel, qr, hint } => (panel_view(panel), Some((qr, spans_view(hint@)))),
    }
}

fn panel_of(title: &'static str, accent: PanelAccent, lines: Vec<Vec<StyledSpan>>) -> (v: DropboxView)
    ensures
        dropbox_view_spec(v) == ((title@, accent, lines_view(lines@)), None::<(bool, Seq<(Seq<char>, StyleRole)>)>),
{
    DropboxView::Single(PanelText { title, accent, lines })
}

impl SetupDropboxScreen {
    /// The width of the QR pane beside the instructions: enough for the
    /// half-block QR code of `url`, at least 44 cells.
    pub fn qr_pane_width(url: &str) -> (w: u16)
        ensures
            w == match qr_symbol_of(url@) {
                Some((m, _)) => if outer_size_spec(m).0 > 44 { outer_size_spec(m).0 } else { 44 },
                None => 44,
            },
    {
        NextcloudLoginFlowScreen::left_pane_width(url)
    }

    /// What the Dropbox screen shows for `state`.
    pub fn content(state: &DropboxSetupState) -> (v: DropboxView)
        ensures
            dropbox_view_spec(v) == dropbox_content_spec(state@),
    {
        let ghost want = dropbox_content_spec(state@);
        let mut v: Vec<Vec<StyledSpan>> = Vec::new();
        if state.show_url_modal {
            push_line(&mut v, blank());
            push_line(&mut v, one("  full Dropbox authorize URL:", StyleRole::AccentBold));
            push_line(&mut v, blank());
            let mut l: Vec<StyledSpan> = Vec::new();
            l.push(joined_span("  ", state.authorize_url.as_str(), StyleRole::Cyan));
            assert(spans_view(l@) =~= seq![("  "@ + state@.authorize_url, StyleRole::Cyan)]);
            push_line(&mut v, l);
            push_line(&mut v, blank());
            push_line(&mut v, one("  esc closes this overlay.", StyleRole::Dim));
            assert(lines_view(v@) =~= want.0.2);
            return panel_of(" authorize url ", PanelAccent::Mint, v);
        }
        match &state.stage {
            DropboxSetupStage::NotStarted | DropboxSetupStage::Initiating => {
                push_line(&mut v, blank());
                push_line(&mut v, one("  preparing Dropbox authorization URL…", StyleRole::AccentBold));
                push_line(&mut v, blank());
                push_line(&mut v, one("  press esc to cancel.", StyleRole::Dim));
                assert(lines_view(v@) =~= want.0.2);
                panel_of(" paste-code ", PanelAccent::Mint, v)
            },
            DropboxSetupStage::AwaitingPaste => {
                push_line(&mut v, blank());
                push_line(&mut v, one("  open the URL on any device with a browser:", StyleRole::AccentBold));
                push_line(&mut v, blank());
                push_line(&mut v, two("  ", StyleRole::Dim, state.authorize_url.as_str(), StyleRole::Cyan));
                push_line(&mut v, blank());
                push_line(&mut v, one("  approve, copy the code Dropbox shows, paste it here:", StyleRole::Dim));
                assert(lines_view(v@) =~= want.0.2);
                let text = if state.pasted_code_appears_valid() {
                    "  press ↵ to exchange the code for tokens."
                } else {
                    "  type or ctrl-v to paste, then press ↵ to exchange."
                };
                let hint = one(text, StyleRole::Dim);
                DropboxView::AwaitingPaste {
                    panel: PanelText { title: " paste-code ", accent: PanelAccent::Mint, lines: v },
                    qr: state.show_qr,
                    hint,
                }
            },
            DropboxSetupStage::Exchanging => {
                push_line(&mut v, blank());
                push_line(&mut v, one("  exchanging code for tokens…", StyleRole::AccentBold));
                assert(lines_view(v@) =~= want.0.2);
                panel_of(" paste-code ", PanelAccent::Mint, v)
            },
            DropboxSetupStage::Fetching => {
                push_line(&mut v, blank());
                push_line(&mut v, one("  resolving Dropbox account…", StyleRole::AccentBold));
                assert(lines_view(v@) =~= want.0.2);
                panel_of(" paste-code ", PanelAccent::Mint, v)
            },
            DropboxSetupStage::Done => {
                push_line(&mut v, blank());
                push_line(&mut v, one("  signed in.", StyleRole::AccentBold));
                push_line(&mut v, blank());
                push_line(&mut v, two("  account: ", StyleRole::Dim, state.user_email.as_str(), StyleRole::Cyan));
                let mut l: Vec<StyledSpan> = Vec::new();
                l.push(span("  folder:  ", StyleRole::Dim));
                l.push(joined_span("Apps/zz-drop/", state.root_folder.as_str(), StyleRole::Cyan));
                assert(spans_view(l@) =~= seq![
                    ("  folder:  "@, StyleRole::Dim),
                    ("Apps/zz-drop/"@ + state@.root_folder, StyleRole::Cyan),
                ]);
                push_line(&mut v, l);
                assert(lines_view(v@) =~= want.0.2);
                panel_of(" dropbox ", PanelAccent::Mint, v)
            },
            DropboxSetupStage::Failed(msg) => {
                push_line(&mut v, blank());
                push_line(&mut v, one("  setup failed.", StyleRole::Danger));
                push_line(&mut v, blank());
                let mut l: Vec<StyledSpan> = Vec::new();
                l.push(span("  reason: ", StyleRole::Dim));
                l.push(owned_span(msg.clone(), StyleRole::Danger));
                assert(spans_view(l@) =~= seq![("  reason: "@, StyleRole::Dim), (msg@, StyleRole::Danger)]);
                push_line(&mut v, l);
                push_line(&mut v, blank());
                push_line(&mut v, one("  press r to retry, esc to go back.", StyleRole::Dim));
                assert(lines_view(v@) =~= want.0.2);
                panel_of(" paste-code ", PanelAccent::Red, v)
            },
        }
    }
}

/// One row of a radio list.
pub struct ChoiceRow {
    pub label: &'static str,
    pub hint: &'static str,
    /// The cursor is on this row.
    pub focused: bool,
    /// This row's option is the chosen one.
    pub selected: bool,
    /// Shown greyed out; it cannot be chosen.
    pub disabled: bool,
}

pub open spec fn choice_view(r: ChoiceRow) -> (Seq<char>, Seq<char>, bool, bool, bool) {
    (r.label@, r.hint@, r.focused, r.selected, r.disabled)
}

pub open spec fn choices_view(v: Seq<ChoiceRow>) -> Seq<(Seq<char>, Seq<char>, bool, bool, bool)> {
    v.map_values(|r: ChoiceRow| choice_view(r))
}

fn push_choice(
    v: &mut Vec<ChoiceRow>,
    label: &'static str,
    hint: &'static str,
    focused: bool,
    selected: bool,
    disabled: bool,
)
    ensures
        choices_view(final(v)@) == choices_view(old(v)@).push((label@, hint@, focused, selected, disabled)),
{
    let ghost before = v@;
    v.push(ChoiceRow { label, hint, focused, selected, disabled });
    assert(choices_view(v@) =~= choices_view(before).push((label@, hint@, focused, selected, disabled)));
}

/// The provider list: the four providers, the cursor and the choice on
/// `selected`, then two planned ones that cannot be chosen.
pub open spec fn provider_rows_spec(selected: ProviderKind) -> Seq<(Seq<char>, Seq<char>, bool, bool, bool)> {
    let nc = selected == ProviderKind::Nextcloud;
    let gd = selected == ProviderKind::GoogleDrive;
    let od = selected == ProviderKind::OneDrive;
    let db = selected == ProviderKind::Dropbox;
    seq![
        ("Nextcloud · WebDAV"@, "self-hosted or managed · login flow / app password"@, nc, nc, false),
        ("Google Drive · OAuth"@, "device flow · scope drive.file"@, gd, gd, false),
        ("OneDrive · OAuth"@, "device flow · Microsoft Graph"@, od, od, false),
        ("Dropbox · OAuth"@, "paste-code · App folder"@, db, db, false),
        ("Proton Drive"@, "planned · pending official CLI/SDK"@, false, false, true),
        ("S3 / R2"@, "planned · object storage"@, false, false, true),
    ]
}

impl ProviderScreen {
    /// The rows of the " Choose Provider " panel.
    pub fn rows(selected: ProviderKind) -> (v: Vec<ChoiceRow>)
        ensures
            choices_view(v@) == provider_rows_spec(selected),
    {
        let nc = selected == ProviderKind::Nextcloud;
        let gd = selected == ProviderKind::GoogleDrive;
        let od = selected == ProviderKind::OneDrive;
        let db = selected == ProviderKind::Dropbox;
        let mut v: Vec<ChoiceRow> = Vec::new();
        push_choice(&mut v, "Nextcloud · WebDAV", "self-hosted or managed · login flow / app password", nc, nc, false);
        push_choice(&mut v, "Google Drive · OAuth", "device flow · scope drive.file", gd, gd, false);
        push_choice(&mut v, "OneDrive · OAuth", "device flow · Microsoft Graph", od, od, false);
        push_choice(&mut v, "Dropbox · OAuth", "paste-code · App folder", db, db, false);
        push_choice(&mut v, "Proton Drive", "planned · pending official CLI/SDK", false, false, true);
        push_choice(&mut v, "S3 / R2", "planned · object storage", false, false, true);
        assert(choices_view(v@) =~= provider_rows_spec(selected));
        v
    }
}

/// The hint under the provider list for the focused provider: with
/// OneDrive, that strict business tenants may refuse consent to the
/// shared app registration and how to use one's own; nothing for the
/// others.
pub open spec fn provider_context_spec(selected: ProviderKind) -> Seq<Seq<(Seq<char>, StyleRole)>> {
    if selected == ProviderKind::OneDrive {
        seq![
            blank_spec(),
            seq![("  ⚠  strict business tenants may refuse consent to the shared app."@, StyleRole::Warn)],
            seq![("     build with your own client_id — see docs/onedrive.md"@, StyleRole::Dim)],
        ]
    } else {
        Seq::empty()
    }
}

impl ProviderScreen {
    /// The lines under the provider list.
    pub fn context_lines(selected: ProviderKind) -> (v: Vec<Vec<StyledSpan>>)
        ensures
            lines_view(v@) == provider_context_spec(selected),
    {
        let mut v: Vec<Vec<StyledSpan>> = Vec::new();
        if selected == ProviderKind::OneDrive {
            push_line(&mut v, blank());
            push_line(&mut v, one("  ⚠  strict business tenants may refuse consent to the shared app.", StyleRole::Warn));
            push_line(&mut v, one("     build with your own client_id — see docs/onedrive.md", StyleRole::Dim));
        }
        assert(lines_view(v@) =~= provider_context_spec(selected));
        v
    }
}

/// The collision choices, the cursor and the choice on `current`.
pub open spec fn collision_rows_spec(current: CollisionChoice) -> Seq<(Seq<char>, Seq<char>, bool, bool, bool)> {
    let r = current == CollisionChoice::Rename;
    let o = current == CollisionChoice::Overwrite;
    let f = current == CollisionChoice::Fail;
    seq![
        ("Rename"@, "appends ` (1)`, ` (2)`… · safe · default"@, r, r, false),
        ("Overwrite"@, "replace remote · destructive"@, o, o, false),
        ("Fail"@, "scriptable abort · for ci / pipelines"@, f, f, false),
    ]
}

/// The preview under the choices: a sample upload of a file whose name
/// is taken, and what `current` does with it.
pub open spec fn collision_preview_spec(current: CollisionChoice) -> Seq<Seq<(Seq<char>, StyleRole)>> {
    seq![
        seq![("  $ "@, StyleRole::Dim), ("zz readme.md"@, StyleRole::Body)],
        match current {
            CollisionChoice::Rename => seq![
                ("    ↻ rename "@, StyleRole::Accent),
                ("→ /zz/readme (1).md"@, StyleRole::Dim),
            ],
            CollisionChoice::Overwrite => seq![
                ("    ! overwrite "@, StyleRole::Warn),
                ("→ /zz/readme.md (replaces existing)"@, StyleRole::Dim),
            ],
            CollisionChoice::Fail => seq![
                ("    ✗ fail "@, StyleRole::Danger),
                ("→ exit code 9, no upload performed"@, StyleRole::Dim),
            ],
        },
        seq![("    ✓ uploaded · 2 KiB"@, StyleRole::Good)],
    ]
}

impl CollisionScreen {
    /// The rows of the choices panel.
    pub fn rows(current: CollisionChoice) -> (v: Vec<ChoiceRow>)
        ensures
            choices_view(v@) == collision_rows_spec(current),
    {
        let r = current == CollisionChoice::Rename;
        let o = current == CollisionChoice::Overwrite;
        let f = current == CollisionChoice::Fail;
        let mut v: Vec<ChoiceRow> = Vec::new();
        push_choice(&mut v, "Rename", "appends ` (1)`, ` (2)`… · safe · default", r, r, false);
        push_choice(&mut v, "Overwrite", "replace remote · destructive", o, o, false);
        push_choice(&mut v, "Fail", "scriptable abort · for ci / pipelines", f, f, false);
        assert(choices_view(v@) =~= collision_rows_spec(current));
        v
    }

    /// The lines of the " preview " panel.
    pub fn preview(current: CollisionChoice) -> (v: Vec<Vec<StyledSpan>>)
        ensures
            lines_view(v@) == collision_preview_spec(current),
    {
        let mut v: Vec<Vec<StyledSpan>> = Vec::new();
        push_line(&mut v, two("  $ ", StyleRole::Dim, "zz readme.md", StyleRole::Body));
        let outcome = match current {
            CollisionChoice::Rename => two("    ↻ rename ", StyleRole::Accent, "→ /zz/readme (1).md", StyleRole::Dim),
            CollisionChoice::Overwrite => two(
                "    ! overwrite ",
                StyleRole::Warn,
                "→ /zz/readme.md (replaces existing)",
                StyleRole::Dim,
            ),
            CollisionChoice::Fail => two(
                "    ✗ fail ",
                StyleRole::Danger,
                "→ exit code 9, no upload performed",
                StyleRole::Dim,
            ),
        };
        push_line(&mut v, outcome);
        push_line(&mut v, one("    ✓ uploaded · 2 KiB", StyleRole::Good));
        assert(lines_view(v@) =~= collision_preview_spec(current));
        v
    }
}

/// The method list of the authentication screen: the chosen method is
/// marked, the cursor shows on it while the selector has focus, and
/// basic auth is listed but cannot be chosen.
pub open spec fn auth_rows_spec(kind: AuthKind, focus: AuthFocus) -> Seq<(Seq<char>, Seq<char>, bool, bool, bool)> {
    let on = focus == AuthFocus::KindSelector;
    let ap = kind == AuthKind::AppPassword;
    let lf = kind == AuthKind::LoginFlow;
    seq![
        ("App Password"@, "paste from Nextcloud"@, on && ap, ap, false),
        ("Login Flow v2"@, "recommended · headless ok"@, on && lf, lf, false),
        ("Basic Auth"@, "not recommended"@, false, false, true),
    ]
}

/// The panel beside the method list, explaining the chosen method.
pub open spec fn auth_side_spec(kind: AuthKind) -> PanelSpec {
    match kind {
        AuthKind::LoginFlow => (
            " Login Flow v2 "@,
            PanelAccent::Cyan,
            seq![
                blank_spec(),
                seq![("  zz-drop will not open a browser by default."@, StyleRole::Dim)],
                blank_spec(),
                seq![("  press enter to start; you'll get a link to"@, StyleRole::Body)],
                seq![("  open on any device. zz polls and finishes"@, StyleRole::Body)],
                seq![("  here automatically."@, StyleRole::Body)],
                blank_spec(),
                seq![("  • headless ok"@, StyleRole::Dim)],
                seq![("  • copy / qr / open buttons inside the next screen"@, StyleRole::Dim)],
            ],
        ),
        AuthKind::AppPassword => (
            " app password "@,
            PanelAccent::Cyan,
            seq![
                blank_spec(),
                seq![("  generate an app password from your"@, StyleRole::Body)],
                seq![("  Nextcloud → settings → security → devices"@, StyleRole::Body)],
                seq![("  & sessions, then paste it here."@, StyleRole::Body)],
                blank_spec(),
                seq![("  the app password lives only inside the"@, StyleRole::Dim)],
                seq![("  encrypted profile.zz."@, StyleRole::Dim)],
            ],
        ),
    }
}

impl NextcloudAuthScreen {
    /// The rows of the " method " panel.
    pub fn method_rows(kind: AuthKind, focus: AuthFocus) -> (v: Vec<ChoiceRow>)
        ensures
            choices_view(v@) == auth_rows_spec(kind, focus),
    {
        let on = focus == AuthFocus::KindSelector;
        let ap = kind == AuthKind::AppPassword;
        let lf = kind == AuthKind::LoginFlow;
        let mut v: Vec<ChoiceRow> = Vec::new();
        push_choice(&mut v, "App Password", "paste from Nextcloud", on && ap, ap, false);
        push_choice(&mut v, "Login Flow v2", "recommended · headless ok", on && lf, lf, false);
        push_choice(&mut v, "Basic Auth", "not recommended", false, false, true);
        assert(choices_view(v@) =~= auth_rows_spec(kind, focus));
        v
    }

    /// The username and app-password fields are shown only for the app
    /// password method.
    pub fn shows_fields(kind: AuthKind) -> (b: bool)
        ensures
            b == (kind == AuthKind::AppPassword),
    {
        kind == AuthKind::AppPassword
    }

    /// The panel beside the method list.
    pub fn side_panel(kind: AuthKind) -> (p: PanelText)
        ensures
            panel_view(p) == auth_side_spec(kind),
    {
        let mut v: Vec<Vec<StyledSpan>> = Vec::new();
        match kind {
            AuthKind::LoginFlow => {
                push_line(&mut v, blank());
                push_line(&mut v, one("  zz-drop will not open a browser by default.", StyleRole::Dim));
                push_line(&mut v, blank());
                push_line(&mut v, one("  press enter to start; you'll get a link to", StyleRole::Body));
                push_line(&mut v, one("  open on any device. zz polls and finishes", StyleRole::Body));
                push_line(&mut v, one("  here automatically.", StyleRole::Body));
                push_line(&mut v, blank());
                push_line(&mut v, one("  • headless ok", StyleRole::Dim));
                push_line(&mut v, one("  • copy / qr / open buttons inside the next screen", StyleRole::Dim));
                assert(lines_view(v@) =~= auth_side_spec(kind).2);
                PanelText { title: " Login Flow v2 ", accent: PanelAccent::Cyan, lines: v }
            },
            AuthKind::AppPassword => {
                push_line(&mut v, blank());
                push_line(&mut v, one("  generate an app password from your", StyleRole::Body));
                push_line(&mut v, one("  Nextcloud → settings → security → devices", StyleRole::Body));
                push_line(&mut v, one("  & sessions, then paste it here.", StyleRole::Body));
                push_line(&mut v, blank());
                push_line(&mut v, one("  the app password lives only inside the", StyleRole::Dim));
                push_line(&mut v, one("  encrypted profile.zz.", StyleRole::Dim));
                assert(lines_view(v@) =~= auth_side_spec(kind).2);
                PanelText { title: " app password ", accent: PanelAccent::Cyan, lines: v }
            },
        }
    }
}

/// The line at the top of the probe panel.
pub open spec fn probe_intro_spec(running: bool, outcome: Option<TestOutcomeView>) -> Seq<char> {
    if running {
        "  probing the remote folder…"@
    } else {
        match outcome {
            Some(TestOutcomeView::Passed) => "  ready · press enter to continue."@,
            Some(TestOutcomeView::Failed(_)) => "  press enter to retry."@,
            None => "  press enter to probe the remote folder."@,
        }
    }
}

pub open spec fn opt_outcome_view(o: Option<&TestOutcome>) -> Option<TestOutcomeView> {
    match o {
        Some(t) => Some(t@),
        None => None,
    }
}

/// The footer under the checks: nothing while the probe runs or before
/// it ran; else "ok", or the reason it failed.
pub open spec fn probe_footer_spec(running: bool, outcome: Option<TestOutcomeView>) -> Option<(Seq<char>, StyleRole)> {
    if running {
        None
    } else {
        match outcome {
            Some(TestOutcomeView::Passed) => Some(("    ok"@, StyleRole::Good)),
            Some(TestOutcomeView::Failed(r)) => Some(("    "@ + r, StyleRole::Danger)),
            None => None,
        }
    }
}

/// One row of the probe checklist: status, step, detail.
pub open spec fn probe_rows_spec(p: ProbeProgress) -> Seq<(CheckStatus, Seq<char>, Seq<char>)> {
    seq![
        (status_of(p.ensure), "ensure folder"@, "PROPFIND + MKCOL"@),
        (status_of(p.marker), "leave marker"@, "Halvdan_was_here · delete it when you no longer need it"@),
        (status_of(p.upload), "upload test file"@, "PUT"@),
        (status_of(p.cleanup), "cleanup"@, "DELETE"@),
    ]
}

pub open spec fn status_of(s: ProbeStepStatus) -> CheckStatus {
    match s {
        ProbeStepStatus::Pending | ProbeStepStatus::Skip => CheckStatus::Skip,
        ProbeStepStatus::Busy => CheckStatus::Busy,
        ProbeStepStatus::Done => CheckStatus::Pass,
        ProbeStepStatus::Failed => CheckStatus::Fail,
    }
}

impl TestUploadScreen {
    /// The first line of the probe panel.
    pub fn intro(running: bool, outcome: Option<&TestOutcome>) -> (s: &'static str)
        ensures
            s@ == probe_intro_spec(running, opt_outcome_view(outcome)),
    {
        if running {
            "  probing the remote folder…"
        } else {
            match outcome {
                Some(TestOutcome::Passed) => "  ready · press enter to continue.",
                Some(TestOutcome::Failed(_)) => "  press enter to retry.",
                None => "  press enter to probe the remote folder.",
            }
        }
    }

    /// The four checks of the probe, in the order they run.
    pub fn check_rows(progress: &ProbeProgress) -> (v: Vec<(CheckStatus, &'static str, &'static str)>)
        ensures
            v@.map_values(|r: (CheckStatus, &'static str, &'static str)| (r.0, r.1@, r.2@)) == probe_rows_spec(*progress),
    {
        let mut v: Vec<(CheckStatus, &'static str, &'static str)> = Vec::new();
        v.push((map_status(progress.ensure), "ensure folder", "PROPFIND + MKCOL"));
        v.push((map_status(progress.marker), "leave marker", "Halvdan_was_here · delete it when you no longer need it"));
        v.push((map_status(progress.upload), "upload test file", "PUT"));
        v.push((map_status(progress.cleanup), "cleanup", "DELETE"));
        assert(v@.map_values(|r: (CheckStatus, &'static str, &'static str)| (r.0, r.1@, r.2@)) =~= probe_rows_spec(*progress));
        v
    }

    /// The footer line, if any.
    pub fn footer(running: bool, outcome: Option<&TestOutcome>) -> (f: Option<StyledSpan>)
        ensures
            match f {
                Some(s) => probe_footer_spec(running, opt_outcome_view(outcome)) == Some((s.text@, s.role)),
                None => probe_footer_spec(running, opt_outcome_view(outcome)) is None,
            },
    {
        if running {
            return None;
        }
        match outcome {
            Some(TestOutcome::Passed) => Some(span("    ok", StyleRole::Good)),
            Some(TestOutcome::Failed(r)) => Some(joined_span("    ", r.as_str(), StyleRole::Danger)),
            None => None,
        }
    }
}

/// The unlock screen's title, first line and status line, for a
/// container of `source` in `stage`, after `last_error` if any.
pub open spec fn unlock_text_spec(source: ProfileSource, stage: ManageStage, last_error: Option<Seq<char>>) -> (
    Seq<char>,
    Seq<char>,
    (Seq<char>, StyleRole),
) {
    (
        match source {
            ProfileSource::Local => " open local profile "@,
            ProfileSource::Remote => " open synced profile "@,
        },
        match source {
            ProfileSource::Local => "  enter the passphrase to decrypt the local-only profiles-local.zz."@,
            ProfileSource::Remote => "  enter the passphrase you used when this alias was uploaded."@,
        },
        if stage == ManageStage::Unlocking {
            ("  …  decrypting (Argon2id, ~1 s)"@, StyleRole::Cyan)
        } else {
            match last_error {
                Some(e) => ("  ✗ "@ + e, StyleRole::Danger),
                None => ("  the passphrase is typed locally and never leaves this machine."@, StyleRole::Dim),
            }
        },
    )
}

pub open spec fn opt_str_view(o: Option<&str>) -> Option<Seq<char>> {
    match o {
        Some(s) => Some(s@),
        None => None,
    }
}

impl ProfileUnlockScreen {
    /// The panel's title.
    pub fn panel_title(source: ProfileSource) -> (s: &'static str)
        ensures
            s@ == unlock_text_spec(source, ManageStage::Locked, None).0,
    {
        match source {
            ProfileSource::Local => " open local profile ",
            ProfileSource::Remote => " open synced profile ",
        }
    }

    /// The line above the file path.
    pub fn intro(source: ProfileSource) -> (s: &'static str)
        ensures
            s@ == unlock_text_spec(source, ManageStage::Locked, None).1,
    {
        match source {
            ProfileSource::Local => "  enter the passphrase to decrypt the local-only profiles-local.zz.",
            ProfileSource::Remote => "  enter the passphrase you used when this alias was uploaded.",
        }
    }

    /// The line under the passphrase field.
    pub fn status_line(stage: ManageStage, last_error: Option<&str>) -> (l: StyledSpan)
        ensures
            (l.text@, l.role) == unlock_text_spec(ProfileSource::Local, stage, opt_str_view(last_error)).2,
    {
        if stage == ManageStage::Unlocking {
            return span("  …  decrypting (Argon2id, ~1 s)", StyleRole::Cyan);
        }
        match last_error {
            Some(e) => joined_span("  ✗ ", e, StyleRole::Danger),
            None => span("  the passphrase is typed locally and never leaves this machine.", StyleRole::Dim),
        }
    }
}

/// The line under the two-factor code field.
pub open spec fn totp_status_spec(stage: PushStageView) -> (Seq<char>, StyleRole) {
    match stage {
        PushStageView::TotpSending => ("  …  verifying code"@, StyleRole::Cyan),
        PushStageView::Failed(r) => ("  ✗ "@ + r, StyleRole::Danger),
        _ => ("  recovery codes are 10-character; TOTP codes are 6 digits."@, StyleRole::Dim),
    }
}

impl LoginTotpScreen {
    /// The status line under the code field.
    pub fn status_line(stage: &PushStage) -> (l: StyledSpan)
        ensures
            (l.text@, l.role) == totp_status_spec(stage@),
    {
        match stage {
            PushStage::TotpSending => span("  …  verifying code", StyleRole::Cyan),
            PushStage::Failed(r) => joined_span("  ✗ ", r.as_str(), StyleRole::Danger),
            _ => span("  recovery codes are 10-character; TOTP codes are 6 digits.", StyleRole::Dim),
        }
    }
}

} // verus!
