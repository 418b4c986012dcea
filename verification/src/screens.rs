//! The wizard's screens: which one follows which, their titles,
//! breadcrumbs, stepper positions and key hints.

use vstd::prelude::*;
use crate::profile::{PlainProfile, ProviderProfile, ProviderProfileView};
use crate::widgets::{KeyHint, StepState, CheckStatus, hints_text};
use crate::wizard::{
    DropboxSetupState, DropboxStageView, LoginFlowStageView, LoginFlowState, ManageStage,
    PassphraseStage, PassphraseStageView, ProbeStepStatus, PushStage, PushStageView, TestOutcome,
    TestOutcomeView, pasted_code_ok,
};

verus! {

/// State of the alias prompt for a new connection.
#[derive(Clone, Copy, Debug, Default, PartialEq, Eq, Structural)]
pub enum InnerAliasState {
    #[default]
    Editing,
    /// The driver is appending the connection.
    Saving,
    /// The alias was refused; the reason is shown under the field.
    Failed,
}

#[derive(Clone, Copy, Debug, PartialEq, Eq, Structural)]
pub enum Screen {
    Welcome,
    Provider,
    NextcloudServer,
    NextcloudAuth,
    NextcloudLoginFlow,
    SetupGoogleDrive,
    SetupOneDrive,
    SetupDropbox,
    RemoteFolder,
    Collision,
    TestUpload,
    ProfilePassphrase,
    Done,
    Account,
    LoginTotp,
    PushProfile,
    ProfileUnlock,
    ProfileManage,
    ContainerPicker,
    InnerAlias,
}

impl Screen {
    /// The step after this one in the Nextcloud wizard path; screens
    /// outside that path stay where they are.
    pub open spec fn next_spec(self) -> Screen {
        match self {
            Screen::Welcome => Screen::Provider,
            Screen::Provider => Screen::NextcloudServer,
            Screen::NextcloudServer => Screen::NextcloudAuth,
            Screen::NextcloudAuth => Screen::RemoteFolder,
            Screen::NextcloudLoginFlow => Screen::RemoteFolder,
            Screen::SetupGoogleDrive => Screen::Collision,
            Screen::SetupOneDrive => Screen::Collision,
            Screen::SetupDropbox => Screen::Collision,
            Screen::RemoteFolder => Screen::Collision,
            Screen::Collision => Screen::TestUpload,
            Screen::TestUpload => Screen::ProfilePassphrase,
            Screen::ProfilePassphrase => Screen::Done,
            other => other,
        }
    }

    /// The step before this one in the Nextcloud wizard path.
    pub open spec fn previous_spec(self) -> Screen {
        match self {
            Screen::Provider => Screen::Welcome,
            Screen::NextcloudServer => Screen::Provider,
            Screen::NextcloudAuth => Screen::NextcloudServer,
            Screen::NextcloudLoginFlow => Screen::NextcloudAuth,
            Screen::SetupGoogleDrive => Screen::Provider,
            Screen::SetupOneDrive => Screen::Provider,
            Screen::SetupDropbox => Screen::Provider,
            Screen::RemoteFolder => Screen::NextcloudAuth,
            Screen::Collision => Screen::RemoteFolder,
            Screen::TestUpload => Screen::Collision,
            Screen::ProfilePassphrase => Screen::TestUpload,
            Screen::Done => Screen::ProfilePassphrase,
            other => other,
        }
    }

    pub fn next(self) -> (s: Screen)
        ensures
            s == self.next_spec(),
    {
        match self {
            Screen::Welcome => Screen::Provider,
            Screen::Provider => Screen::NextcloudServer,
            Screen::NextcloudServer => Screen::NextcloudAuth,
            Screen::NextcloudAuth => Screen::RemoteFolder,
            Screen::NextcloudLoginFlow => Screen::RemoteFolder,
            Screen::SetupGoogleDrive => Screen::Collision,
            Screen::SetupOneDrive => Screen::Collision,
            Screen::SetupDropbox => Screen::Collision,
            Screen::RemoteFolder => Screen::Collision,
            Screen::Collision => Screen::TestUpload,
            Screen::TestUpload => Screen::ProfilePassphrase,
            Screen::ProfilePassphrase => Screen::Done,
            other => other,
        }
    }

    pub fn previous(self) -> (s: Screen)
        ensures
            s == self.previous_spec(),
    {
        match self {
            Screen::Provider => Screen::Welcome,
            Screen::NextcloudServer => Screen::Provider,
            Screen::NextcloudAuth => Screen::NextcloudServer,
            Screen::NextcloudLoginFlow => Screen::NextcloudAuth,
            Screen::SetupGoogleDrive => Screen::Provider,
            Screen::SetupOneDrive => Screen::Provider,
            Screen::SetupDropbox => Screen::Provider,
            Screen::RemoteFolder => Screen::NextcloudAuth,
            Screen::Collision => Screen::RemoteFolder,
            Screen::TestUpload => Screen::Collision,
            Screen::ProfilePassphrase => Screen::TestUpload,
            Screen::Done => Screen::ProfilePassphrase,
            other => other,
        }
    }

    /// Position on the 8-step wizard stepper, if the screen is a step.
    pub open spec fn stepper_index_spec(self) -> Option<usize> {
        match self {
            Screen::Welcome => Some(0),
            Screen::Provider => Some(1),
            Screen::NextcloudServer => Some(2),
            Screen::NextcloudAuth | Screen::NextcloudLoginFlow | Screen::SetupGoogleDrive
            | Screen::SetupOneDrive | Screen::SetupDropbox => Some(3),
            Screen::RemoteFolder | Screen::Collision | Screen::TestUpload => Some(4),
            Screen::ProfilePassphrase => Some(5),
            Screen::Account | Screen::LoginTotp | Screen::PushProfile => Some(6),
            Screen::Done => Some(7),
            _ => None,
        }
    }

    pub fn stepper_index(self) -> (r: Option<usize>)
        ensures
            r == self.stepper_index_spec(),
    {
        match self {
            Screen::Welcome => Some(0),
            Screen::Provider => Some(1),
            Screen::NextcloudServer => Some(2),
            Screen::NextcloudAuth | Screen::NextcloudLoginFlow | Screen::SetupGoogleDrive
            | Screen::SetupOneDrive | Screen::SetupDropbox => Some(3),
            Screen::RemoteFolder | Screen::Collision | Screen::TestUpload => Some(4),
            Screen::ProfilePassphrase => Some(5),
            Screen::Account | Screen::LoginTotp | Screen::PushProfile => Some(6),
            Screen::Done => Some(7),
            _ => None,
        }
    }
}

/// Screens that show the wizard stepper.
pub fn screen_shows_steps(s: Screen) -> (b: bool)
    ensures
        b == s.stepper_index_spec() is Some,
{
    s.stepper_index().is_some()
}

pub open spec fn breadcrumb_spec(s: Screen) -> Seq<char> {
    match s {
        Screen::Welcome => "welcome"@,
        Screen::Provider => "setup › provider"@,
        Screen::NextcloudServer => "setup › server"@,
        Screen::NextcloudAuth => "setup › auth"@,
        Screen::NextcloudLoginFlow => "setup › auth › login flow"@,
        Screen::SetupGoogleDrive => "setup › google drive"@,
        Screen::SetupOneDrive => "setup › onedrive"@,
        Screen::SetupDropbox => "setup › dropbox"@,
        Screen::RemoteFolder => "setup › folder"@,
        Screen::Collision => "setup › collision"@,
        Screen::TestUpload => "setup › probe"@,
        Screen::ProfilePassphrase => "setup › encrypt"@,
        Screen::Done => "done"@,
        Screen::Account => "push › account"@,
        Screen::LoginTotp => "push › account › 2fa"@,
        Screen::PushProfile => "push › alias"@,
        Screen::ProfileUnlock => "manage › unlock"@,
        Screen::ProfileManage => "manage › profile"@,
        Screen::ContainerPicker => "manage › select profile"@,
        Screen::InnerAlias => "manage › add connection › alias"@,
    }
}

/// Title-bar breadcrumb of a screen.
pub fn breadcrumb_for(s: Screen) -> (r: &'static str)
    ensures
        r@ == breadcrumb_spec(s),
{
    match s {
        Screen::Welcome => "welcome",
        Screen::Provider => "setup › provider",
        Screen::NextcloudServer => "setup › server",
        Screen::NextcloudAuth => "setup › auth",
        Screen::NextcloudLoginFlow => "setup › auth › login flow",
        Screen::SetupGoogleDrive => "setup › google drive",
        Screen::SetupOneDrive => "setup › onedrive",
        Screen::SetupDropbox => "setup › dropbox",
        Screen::RemoteFolder => "setup › folder",
        Screen::Collision => "setup › collision",
        Screen::TestUpload => "setup › probe",
        Screen::ProfilePassphrase => "setup › encrypt",
        Screen::Done => "done",
        Screen::Account => "push › account",
        Screen::LoginTotp => "push › account › 2fa",
        Screen::PushProfile => "push › alias",
        Screen::ProfileUnlock => "manage › unlock",
        Screen::ProfileManage => "manage › profile",
        Screen::ContainerPicker => "manage › select profile",
        Screen::InnerAlias => "manage › add connection › alias",
    }
}

/// Breadcrumb when the probe is re-run from the manage screen, else the
/// screen's own.
pub fn breadcrumb_in_context(s: Screen, manage_retest: bool) -> (r: &'static str)
    ensures
        r@ == if manage_retest {
            "manage › probe"@
        } else {
            breadcrumb_spec(s)
        },
{
    if manage_retest {
        "manage › probe"
    } else {
        breadcrumb_for(s)
    }
}

pub open spec fn step_label_spec(i: int) -> Seq<char> {
    if i == 0 {
        "welcome"@
    } else if i == 1 {
        "provider"@
    } else if i == 2 {
        "server"@
    } else if i == 3 {
        "auth"@
    } else if i == 4 {
        "folder"@
    } else if i == 5 {
        "encrypt"@
    } else if i == 6 {
        "push"@
    } else {
        "done"@
    }
}

fn step_label(i: usize) -> (s: &'static str)
    requires
        i < 8,
    ensures
        s@ == step_label_spec(i as int),
{
    if i == 0 {
        "welcome"
    } else if i == 1 {
        "provider"
    } else if i == 2 {
        "server"
    } else if i == 3 {
        "auth"
    } else if i == 4 {
        "folder"
    } else if i == 5 {
        "encrypt"
    } else if i == 6 {
        "push"
    } else {
        "done"
    }
}

/// State of step `i` when step `active` is current: earlier steps are
/// past, later ones (and all, when nothing is active) future.
pub open spec fn step_state_spec(active: Option<usize>, i: int) -> StepState {
    match active {
        Some(a) => if a == i {
            StepState::Active
        } else if a > i {
            StepState::Past
        } else {
            StepState::Future
        },
        None => StepState::Future,
    }
}

/// The 8 wizard steps with their states.
pub fn build_step_labels(active: Option<usize>) -> (v: Vec<(&'static str, StepState)>)
    ensures
        v@.len() == 8,
        forall|i: int|
            0 <= i < 8 ==> (#[trigger] v@[i]).0@ == step_label_spec(i) && v@[i].1
                == step_state_spec(active, i),
{
    let mut v: Vec<(&'static str, StepState)> = Vec::new();
    let mut i: usize = 0;
    while i < 8
        invariant
            i <= 8,
            v@.len() == i,
            forall|j: int|
                0 <= j < i ==> (#[trigger] v@[j]).0@ == step_label_spec(j) && v@[j].1
                    == step_state_spec(active, j),
        decreases 8 - i,
    {
        let state = match active {
            Some(a) => if a == i {
                StepState::Active
            } else if a > i {
                StepState::Past
            } else {
                StepState::Future
            },
            None => StepState::Future,
        };
        v.push((step_label(i), state));
        i = i + 1;
    }
    v
}

pub open spec fn add_inner_label_spec(i: int) -> Seq<char> {
    if i == 0 {
        "provider"@
    } else if i == 1 {
        "server"@
    } else if i == 2 {
        "auth"@
    } else if i == 3 {
        "folder"@
    } else if i == 4 {
        "alias"@
    } else {
        "done"@
    }
}

fn add_inner_label(i: usize) -> (s: &'static str)
    requires
        i < 6,
    ensures
        s@ == add_inner_label_spec(i as int),
{
    if i == 0 {
        "provider"
    } else if i == 1 {
        "server"
    } else if i == 2 {
        "auth"
    } else if i == 3 {
        "folder"
    } else if i == 4 {
        "alias"
    } else {
        "done"
    }
}

/// The 6 steps of the add-connection sub-flow with their states.
pub fn build_add_inner_step_labels(active: usize) -> (v: Vec<(&'static str, StepState)>)
    ensures
        v@.len() == 6,
        forall|i: int|
            0 <= i < 6 ==> (#[trigger] v@[i]).0@ == add_inner_label_spec(i) && v@[i].1
                == step_state_spec(Some(active), i),
{
    let mut v: Vec<(&'static str, StepState)> = Vec::new();
    let mut i: usize = 0;
    while i < 6
        invariant
            i <= 6,
            v@.len() == i,
            forall|j: int|
                0 <= j < i ==> (#[trigger] v@[j]).0@ == add_inner_label_spec(j) && v@[j].1
                    == step_state_spec(Some(active), j),
        decreases 6 - i,
    {
        let state = if i == active {
            StepState::Active
        } else if i < active {
            StepState::Past
        } else {
            StepState::Future
        };
        v.push((add_inner_label(i), state));
        i = i + 1;
    }
    v
}

pub open spec fn add_inner_stepper_index_spec(s: Screen) -> Option<usize> {
    match s {
        Screen::Provider => Some(0),
        Screen::NextcloudServer => Some(1),
        Screen::NextcloudAuth | Screen::NextcloudLoginFlow | Screen::SetupGoogleDrive
        | Screen::SetupOneDrive | Screen::SetupDropbox => Some(2),
        Screen::RemoteFolder | Screen::Collision | Screen::TestUpload => Some(3),
        Screen::InnerAlias => Some(4),
        Screen::Done => Some(5),
        _ => None,
    }
}

/// Position on the add-connection stepper.
pub fn add_inner_stepper_index(s: Screen) -> (r: Option<usize>)
    ensures
        r == add_inner_stepper_index_spec(s),
{
    match s {
        Screen::Provider => Some(0),
        Screen::NextcloudServer => Some(1),
        Screen::NextcloudAuth | Screen::NextcloudLoginFlow | Screen::SetupGoogleDrive
        | Screen::SetupOneDrive | Screen::SetupDropbox => Some(2),
        Screen::RemoteFolder | Screen::Collision | Screen::TestUpload => Some(3),
        Screen::InnerAlias => Some(4),
        Screen::Done => Some(5),
        _ => None,
    }
}

/// How a probe step shows as a check row.
pub fn map_status(s: ProbeStepStatus) -> (c: CheckStatus)
    ensures
        c == match s {
            ProbeStepStatus::Pending => CheckStatus::Skip,
            ProbeStepStatus::Busy => CheckStatus::Busy,
            ProbeStepStatus::Done => CheckStatus::Pass,
            ProbeStepStatus::Failed => CheckStatus::Fail,
            ProbeStepStatus::Skip => CheckStatus::Skip,
        },
{
    match s {
        ProbeStepStatus::Pending => CheckStatus::Skip,
        ProbeStepStatus::Busy => CheckStatus::Busy,
        ProbeStepStatus::Done => CheckStatus::Pass,
        ProbeStepStatus::Failed => CheckStatus::Fail,
        ProbeStepStatus::Skip => CheckStatus::Skip,
    }
}

// ─── key hints ──────────────────────────────────────────────────────

fn push_hint(v: &mut Vec<KeyHint>, key: &'static str, label: &'static str)
    ensures
        hints_text(final(v)@) == hints_text(old(v)@).push((key@, label@)),
{
    v.push(KeyHint::new(key, label));
    assert(hints_text(v@) =~= hints_text(old(v)@).push((key@, label@)));
}

fn hints1(k1: &'static str, l1: &'static str) -> (v: Vec<KeyHint>)
    ensures
        hints_text(v@) == seq![(k1@, l1@)],
{
    let mut v = Vec::new();
    push_hint(&mut v, k1, l1);
    assert(hints_text(v@) =~= seq![(k1@, l1@)]);
    v
}

fn hints2(k1: &'static str, l1: &'static str, k2: &'static str, l2: &'static str) -> (v: Vec<
    KeyHint,
>)
    ensures
        hints_text(v@) == seq![(k1@, l1@), (k2@, l2@)],
{
    let mut v = Vec::new();
    push_hint(&mut v, k1, l1);
    push_hint(&mut v, k2, l2);
    assert(hints_text(v@) =~= seq![(k1@, l1@), (k2@, l2@)]);
    v
}

fn hints3(
    k1: &'static str,
    l1: &'static str,
    k2: &'static str,
    l2: &'static str,
    k3: &'static str,
    l3: &'static str,
) -> (v: Vec<KeyHint>)
    ensures
        hints_text(v@) == seq![(k1@, l1@), (k2@, l2@), (k3@, l3@)],
{
    let mut v = hints2(k1, l1, k2, l2);
    push_hint(&mut v, k3, l3);
    assert(hints_text(v@) =~= seq![(k1@, l1@), (k2@, l2@), (k3@, l3@)]);
    v
}

fn hints4(
    k1: &'static str,
    l1: &'static str,
    k2: &'static str,
    l2: &'static str,
    k3: &'static str,
    l3: &'static str,
    k4: &'static str,
    l4: &'static str,
) -> (v: Vec<KeyHint>)
    ensures
        hints_text(v@) == seq![(k1@, l1@), (k2@, l2@), (k3@, l3@), (k4@, l4@)],
{
    let mut v = hints3(k1, l1, k2, l2, k3, l3);
    push_hint(&mut v, k4, l4);
    assert(hints_text(v@) =~= seq![(k1@, l1@), (k2@, l2@), (k3@, l3@), (k4@, l4@)]);
    v
}

pub struct CollisionScreen;

impl CollisionScreen {
    pub fn title() -> (s: &'static str)
        ensures
            s@ == "collision policy"@,
    {
        "collision policy"
    }

    pub fn keybar_hint() -> (v: Vec<KeyHint>)
        ensures
            hints_text(v@) == seq![("↑↓"@, "choose"@), ("↵"@, "continue"@), ("esc"@, "back"@)],
    {
        hints3("↑↓", "choose", "↵", "continue", "esc", "back")
    }
}

pub struct ContainerPickerScreen;

impl ContainerPickerScreen {
    pub fn title() -> (s: &'static str)
        ensures
            s@ == "select profile"@,
    {
        "select profile"
    }

    pub fn keybar_hint() -> (v: Vec<KeyHint>)
        ensures
            hints_text(v@) == seq![("↑↓"@, "navigate"@), ("↵"@, "use"@), ("esc"@, "lock"@)],
    {
        hints3("↑↓", "navigate", "↵", "use", "esc", "lock")
    }

    /// The provider column of a picker row: the family of the
    /// profile's first connection and how it signs in.
    pub fn provider_summary(profile: &PlainProfile) -> (s: &'static str)
        ensures
            s@ == provider_summary_spec(profile@.providers),
    {
        if profile.providers.len() == 0 {
            return "—";
        }
        match &profile.providers[0] {
            ProviderProfile::Nextcloud(_) => "Nextcloud · WebDAV",
            ProviderProfile::GoogleDrive(_) => "Google Drive · OAuth",
            ProviderProfile::OneDrive(_) => "OneDrive · OAuth",
            ProviderProfile::Dropbox(_) => "Dropbox · OAuth",
        }
    }
}

/// The provider column of a picker row for a profile with these
/// connections.
pub open spec fn provider_summary_spec(ps: Seq<ProviderProfileView>) -> Seq<char> {
    if ps.len() == 0 {
        "—"@
    } else {
        match ps[0] {
            ProviderProfileView::Nextcloud(_) => "Nextcloud · WebDAV"@,
            ProviderProfileView::GoogleDrive(_) => "Google Drive · OAuth"@,
            ProviderProfileView::OneDrive(_) => "OneDrive · OAuth"@,
            ProviderProfileView::Dropbox(_) => "Dropbox · OAuth"@,
        }
    }
}

pub struct DoneScreen;

impl DoneScreen {
    pub fn title() -> (s: &'static str)
        ensures
            s@ == "done"@,
    {
        "done"
    }

    pub fn keybar_hint() -> (v: Vec<KeyHint>)
        ensures
            hints_text(v@) == seq![("↵"@, "back to welcome"@), ("q"@, "exit"@)],
    {
        hints2("↵", "back to welcome", "q", "exit")
    }
}

pub struct LoginTotpScreen;

impl LoginTotpScreen {
    pub fn title() -> (s: &'static str)
        ensures
            s@ == "two-factor"@,
    {
        "two-factor"
    }

    pub fn keybar_hint(stage: &PushStage) -> (v: Vec<KeyHint>)
        ensures
            hints_text(v@) == match stage@ {
                PushStageView::TotpSending => seq![("…"@, "verifying"@)],
                _ => seq![("↵"@, "verify"@), ("esc"@, "back"@)],
            },
    {
        match stage {
            PushStage::TotpSending => hints1("…", "verifying"),
            _ => hints2("↵", "verify", "esc", "back"),
        }
    }
}

/// Focus on the Nextcloud auth form.
#[derive(Clone, Copy, Debug, PartialEq, Eq, Structural)]
pub enum AuthFocus {
    KindSelector,
    Username,
    Secret,
}

impl AuthFocus {
    pub open spec fn next_spec(self) -> AuthFocus {
        match self {
            AuthFocus::KindSelector => AuthFocus::Username,
            AuthFocus::Username => AuthFocus::Secret,
            AuthFocus::Secret => AuthFocus::KindSelector,
        }
    }

    pub open spec fn previous_spec(self) -> AuthFocus {
        match self {
            AuthFocus::KindSelector => AuthFocus::Secret,
            AuthFocus::Username => AuthFocus::KindSelector,
            AuthFocus::Secret => AuthFocus::Username,
        }
    }

    pub fn next(self) -> (f: Self)
        ensures
            f == self.next_spec(),
    {
        match self {
            AuthFocus::KindSelector => AuthFocus::Username,
            AuthFocus::Username => AuthFocus::Secret,
            AuthFocus::Secret => AuthFocus::KindSelector,
        }
    }

    pub fn previous(self) -> (f: Self)
        ensures
            f == self.previous_spec(),
    {
        match self {
            AuthFocus::KindSelector => AuthFocus::Secret,
            AuthFocus::Username => AuthFocus::KindSelector,
            AuthFocus::Secret => AuthFocus::Username,
        }
    }
}

/// `next` and `previous` undo each other on the auth form focus.
pub proof fn law_auth_focus_cycle_inverse(f: AuthFocus)
    ensures
        f.next_spec().previous_spec() == f,
        f.previous_spec().next_spec() == f,
{
}

pub struct NextcloudAuthScreen;

impl NextcloudAuthScreen {
    pub fn title() -> (s: &'static str)
        ensures
            s@ == "nextcloud — auth"@,
    {
        "nextcloud — auth"
    }

    pub fn keybar_hint() -> (v: Vec<KeyHint>)
        ensures
            hints_text(v@) == seq![
                ("tab"@, "field"@),
                ("←→"@, "method"@),
                ("↵"@, "continue"@),
                ("esc"@, "back"@),
            ],
    {
        hints4("tab", "field", "←→", "method", "↵", "continue", "esc", "back")
    }
}

pub struct NextcloudLoginFlowScreen;

pub open spec fn login_flow_hints_spec(
    stage: LoginFlowStageView,
    show_url_modal: bool,
    show_qr: bool,
    disable_inline_qr: bool,
) -> Seq<(Seq<char>, Seq<char>)> {
    if show_url_modal {
        seq![("esc"@, "close"@)]
    } else {
        match stage {
            LoginFlowStageView::NotStarted | LoginFlowStageView::Initiating => seq![
                ("…"@, "contacting server"@),
                ("esc"@, "back"@),
            ],
            LoginFlowStageView::Polling => if show_qr {
                seq![
                    ("c"@, "copy"@),
                    ("o"@, "open"@),
                    ("u"@, "url detail"@),
                    if disable_inline_qr {
                        ("i"@, "inline qr"@)
                    } else {
                        ("i"@, "ascii qr"@)
                    },
                    ("q"@, "hide qr"@),
                    ("esc"@, "back"@),
                ]
            } else {
                seq![
                    ("c"@, "copy link"@),
                    ("o"@, "open"@),
                    ("u"@, "url detail"@),
                    ("q"@, "show qr"@),
                    ("esc"@, "cancel"@),
                ]
            },
            LoginFlowStageView::Done => seq![("↵"@, "continue"@), ("esc"@, "back"@)],
            LoginFlowStageView::Failed(_) => seq![("r"@, "retry"@), ("esc"@, "back"@)],
        }
    }
}

impl NextcloudLoginFlowScreen {
    pub fn title() -> (s: &'static str)
        ensures
            s@ == "nextcloud — login flow"@,
    {
        "nextcloud — login flow"
    }

    pub fn keybar_hint(state: &LoginFlowState) -> (v: Vec<KeyHint>)
        ensures
            hints_text(v@) == login_flow_hints_spec(
                state@.stage,
                state@.show_url_modal,
                state@.show_qr,
                state@.disable_inline_qr,
            ),
    {
        if state.show_url_modal {
            return hints1("esc", "close");
        }
        match state.stage {
            crate::wizard::LoginFlowStage::NotStarted | crate::wizard::LoginFlowStage::Initiating => {
                hints2("…", "contacting server", "esc", "back")
            },
            crate::wizard::LoginFlowStage::Polling => {
                if state.show_qr {
                    let mut v = hints3("c", "copy", "o", "open", "u", "url detail");
                    if state.disable_inline_qr {
                        push_hint(&mut v, "i", "inline qr");
                    } else {
                        push_hint(&mut v, "i", "ascii qr");
                    }
                    push_hint(&mut v, "q", "hide qr");
                    push_hint(&mut v, "esc", "back");
                    assert(hints_text(v@) =~= login_flow_hints_spec(
                        state@.stage,
                        state@.show_url_modal,
                        state@.show_qr,
                        state@.disable_inline_qr,
                    ));
                    v
                } else {
                    let mut v = hints4("c", "copy link", "o", "open", "u", "url detail", "q", "show qr");
                    push_hint(&mut v, "esc", "cancel");
                    assert(hints_text(v@) =~= login_flow_hints_spec(
                        state@.stage,
                        state@.show_url_modal,
                        state@.show_qr,
                        state@.disable_inline_qr,
                    ));
                    v
                }
            },
            crate::wizard::LoginFlowStage::Done => hints2("↵", "continue", "esc", "back"),
            crate::wizard::LoginFlowStage::Failed(_) => hints2("r", "retry", "esc", "back"),
        }
    }
}

pub struct ProfilePassphraseScreen;

impl ProfilePassphraseScreen {
    pub fn title() -> (s: &'static str)
        ensures
            s@ == "profile passphrase"@,
    {
        "profile passphrase"
    }

    pub fn keybar_hint(stage: &PassphraseStage) -> (v: Vec<KeyHint>)
        ensures
            hints_text(v@) == match stage@ {
                PassphraseStageView::Editing => seq![
                    ("tab"@, "field"@),
                    ("↵"@, "save"@),
                    ("esc"@, "back"@),
                ],
                PassphraseStageView::WeakWarning => seq![
                    ("y"@, "continue anyway"@),
                    ("n"@, "edit"@),
                    ("esc"@, "back"@),
                ],
                PassphraseStageView::Encrypting => seq![("…"@, "encrypting"@)],
                PassphraseStageView::Saved(_) => seq![
                    ("p"@, "push to server"@),
                    ("↵"@, "skip · local-only"@),
                    ("q"@, "quit"@),
                ],
                PassphraseStageView::Failed(_) => seq![("↵"@, "retry"@), ("esc"@, "back"@)],
            },
    {
        match stage {
            PassphraseStage::Editing => hints3("tab", "field", "↵", "save", "esc", "back"),
            PassphraseStage::WeakWarning => hints3(
                "y",
                "continue anyway",
                "n",
                "edit",
                "esc",
                "back",
            ),
            PassphraseStage::Encrypting => hints1("…", "encrypting"),
            PassphraseStage::Saved(_) => hints3(
                "p",
                "push to server",
                "↵",
                "skip · local-only",
                "q",
                "quit",
            ),
            PassphraseStage::Failed(_) => hints2("↵", "retry", "esc", "back"),
        }
    }
}

pub struct ProfileUnlockScreen;

impl ProfileUnlockScreen {
    pub fn title() -> (s: &'static str)
        ensures
            s@ == "open profile"@,
    {
        "open profile"
    }

    pub fn keybar_hint(stage: &ManageStage) -> (v: Vec<KeyHint>)
        ensures
            hints_text(v@) == match *stage {
                ManageStage::Unlocking => seq![("…"@, "decrypting"@)],
                _ => seq![("↵"@, "unlock"@), ("esc"@, "back"@)],
            },
    {
        match stage {
            ManageStage::Unlocking => hints1("…", "decrypting"),
            _ => hints2("↵", "unlock", "esc", "back"),
        }
    }
}

pub struct ProviderScreen;

impl ProviderScreen {
    pub fn title() -> (s: &'static str)
        ensures
            s@ == "provider"@,
    {
        "provider"
    }

    pub fn keybar_hint() -> (v: Vec<KeyHint>)
        ensures
            hints_text(v@) == seq![("↑↓"@, "select"@), ("↵"@, "continue"@), ("esc"@, "back"@)],
    {
        hints3("↑↓", "select", "↵", "continue", "esc", "back")
    }
}

pub struct SetupDropboxScreen;

pub open spec fn dropbox_hints_spec(
    stage: DropboxStageView,
    show_url_modal: bool,
    show_qr: bool,
    disable_inline_qr: bool,
    code_ok: bool,
) -> Seq<(Seq<char>, Seq<char>)> {
    if show_url_modal {
        seq![("esc"@, "close"@)]
    } else {
        match stage {
            DropboxStageView::NotStarted | DropboxStageView::Initiating => seq![
                ("…"@, "preparing url"@),
                ("esc"@, "back"@),
            ],
            DropboxStageView::AwaitingPaste => {
                let qr_toggle = if show_qr {
                    if disable_inline_qr {
                        ("i"@, "inline qr"@)
                    } else {
                        ("i"@, "ascii qr"@)
                    }
                } else {
                    ("q"@, "show qr"@)
                };
                let base = seq![
                    ("c"@, "copy url"@),
                    ("o"@, "open"@),
                    ("u"@, "url detail"@),
                    ("ctrl-v"@, "paste code"@),
                ];
                let with_exchange = if code_ok {
                    base.push(("↵"@, "exchange"@))
                } else {
                    base
                };
                let with_qr = if show_qr {
                    with_exchange.push(qr_toggle).push(("q"@, "hide qr"@))
                } else {
                    with_exchange.push(qr_toggle)
                };
                with_qr.push(("esc"@, "cancel"@))
            },
            DropboxStageView::Exchanging => seq![("…"@, "exchanging code"@), ("esc"@, "back"@)],
            DropboxStageView::Fetching => seq![("…"@, "fetching account"@), ("esc"@, "back"@)],
            DropboxStageView::Done => seq![("↵"@, "continue"@), ("esc"@, "back"@)],
            DropboxStageView::Failed(_) => seq![("r"@, "retry"@), ("esc"@, "back"@)],
        }
    }
}

impl SetupDropboxScreen {
    pub fn title() -> (s: &'static str)
        ensures
            s@ == "dropbox — paste-code"@,
    {
        "dropbox — paste-code"
    }

    pub fn keybar_hint(state: &DropboxSetupState) -> (v: Vec<KeyHint>)
        ensures
            hints_text(v@) == dropbox_hints_spec(
                state@.stage,
                state@.show_url_modal,
                state@.show_qr,
                state@.disable_inline_qr,
                pasted_code_ok(state@.pasted_code.value),
            ),
    {
        if state.show_url_modal {
            return hints1("esc", "close");
        }
        match state.stage {
            crate::wizard::DropboxSetupStage::NotStarted
            | crate::wizard::DropboxSetupStage::Initiating => hints2(
                "…",
                "preparing url",
                "esc",
                "back",
            ),
            crate::wizard::DropboxSetupStage::AwaitingPaste => {
                let mut v = hints4("c", "copy url", "o", "open", "u", "url detail", "ctrl-v", "paste code");
                if state.pasted_code_appears_valid() {
                    push_hint(&mut v, "↵", "exchange");
                }
                if state.show_qr {
                    if state.disable_inline_qr {
                        push_hint(&mut v, "i", "inline qr");
                    } else {
                        push_hint(&mut v, "i", "ascii qr");
                    }
                    push_hint(&mut v, "q", "hide qr");
                } else {
                    push_hint(&mut v, "q", "show qr");
                }
                push_hint(&mut v, "esc", "cancel");
                v
            },
            crate::wizard::DropboxSetupStage::Exchanging => hints2(
                "…",
                "exchanging code",
                "esc",
                "back",
            ),
            crate::wizard::DropboxSetupStage::Fetching => hints2(
                "…",
                "fetching account",
                "esc",
                "back",
            ),
            crate::wizard::DropboxSetupStage::Done => hints2("↵", "continue", "esc", "back"),
            crate::wizard::DropboxSetupStage::Failed(_) => hints2("r", "retry", "esc", "back"),
        }
    }
}

pub struct TestUploadScreen;

impl TestUploadScreen {
    pub fn title() -> (s: &'static str)
        ensures
            s@ == "test upload"@,
    {
        "test upload"
    }

    pub fn keybar_hint(running: bool, outcome: Option<&TestOutcome>) -> (v: Vec<KeyHint>)
        ensures
            hints_text(v@) == if running {
                seq![("…"@, "probing"@)]
            } else {
                match outcome {
                    Some(o) => match o@ {
                        TestOutcomeView::Passed => seq![("↵"@, "continue"@), ("esc"@, "back"@)],
                        TestOutcomeView::Failed(_) => seq![("↵"@, "retry"@), ("esc"@, "back"@)],
                    },
                    None => seq![("↵"@, "run probe"@), ("esc"@, "back"@)],
                }
            },
    {
        if running {
            return hints1("…", "probing");
        }
        match outcome {
            Some(TestOutcome::Passed) => hints2("↵", "continue", "esc", "back"),
            Some(TestOutcome::Failed(_)) => hints2("↵", "retry", "esc", "back"),
            None => hints2("↵", "run probe", "esc", "back"),
        }
    }
}

pub struct WelcomeScreen;

impl WelcomeScreen {
    pub fn title() -> (s: &'static str)
        ensures
            s@ == "welcome"@,
    {
        "welcome"
    }

    pub fn keybar_hint() -> (v: Vec<KeyHint>)
        ensures
            hints_text(v@) == seq![("↑↓"@, "select"@), ("↵"@, "confirm"@), ("q"@, "quit"@)],
    {
        hints3("↑↓", "select", "↵", "confirm", "q", "quit")
    }
}

} // verus!
