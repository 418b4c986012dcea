//! State of the configuration wizard: what the operator picked, typed
//! and what the provider handshakes returned, plus the small pure
//! helpers the screens use.

use vstd::prelude::*;
use vstd::string::*;
use crate::input::{TextInput, TextInputView, empty_input};
use crate::profile::CollisionPolicy;
use crate::text::{
    char_at, char_count, char_is_ascii_alnum, from_str, is_ascii_alnum, is_blank, str_eq,
    string_chars, string_push, trim, trim_spec,
};

verus! {

/// Which storage provider the operator picked.
#[derive(Clone, Copy, Debug, Default, PartialEq, Eq, Structural)]
pub enum ProviderKind {
    #[default]
    Nextcloud,
    GoogleDrive,
    OneDrive,
    Dropbox,
}

#[derive(Clone, Copy, Debug, Default, PartialEq, Eq, Structural)]
pub enum ProbeStepStatus {
    /// Not yet attempted.
    #[default]
    Pending,
    Busy,
    Done,
    Failed,
    /// Intentionally not run (an earlier step failed).
    Skip,
}

/// Progress of the four-stage upload probe.
#[derive(Clone, Copy, Default, Debug, PartialEq, Eq, Structural)]
pub struct ProbeProgress {
    pub ensure: ProbeStepStatus,
    /// Stage 2: the persistent "I was here" marker file.
    pub marker: ProbeStepStatus,
    pub upload: ProbeStepStatus,
    pub cleanup: ProbeStepStatus,
}

#[derive(Clone, Debug, PartialEq, Eq)]
pub enum TestOutcome {
    Passed,
    Failed(String),
}

pub enum TestOutcomeView {
    Passed,
    Failed(Seq<char>),
}

impl View for TestOutcome {
    type V = TestOutcomeView;

    open spec fn view(&self) -> TestOutcomeView {
        match self {
            TestOutcome::Passed => TestOutcomeView::Passed,
            TestOutcome::Failed(s) => TestOutcomeView::Failed(s@),
        }
    }
}

pub open spec fn opt_outcome_view(o: Option<TestOutcome>) -> Option<TestOutcomeView> {
    match o {
        Some(t) => Some(t@),
        None => None,
    }
}

pub open spec fn opt_str_view(o: Option<String>) -> Option<Seq<char>> {
    match o {
        Some(s) => Some(s@),
        None => None,
    }
}

pub open spec fn opt_static_view(o: Option<&'static str>) -> Option<Seq<char>> {
    match o {
        Some(s) => Some(s@),
        None => None,
    }
}

/// Everything the operator entered in the wizard so far.
#[derive(Clone, Default)]
pub struct WizardState {
    pub provider_kind: ProviderKind,
    pub server_url: String,
    pub username: String,
    pub auth_kind: AuthKind,
    pub auth_secret: String,
    pub remote_folder: String,
    pub collision: CollisionPolicy,
    pub last_test_outcome: Option<TestOutcome>,
    pub probe_progress: ProbeProgress,
    /// Alias picked on the alias screen during a first container
    /// setup; when set it wins over the provider-based default.
    pub alias_override: Option<String>,
}

pub struct WizardStateView {
    pub provider_kind: ProviderKind,
    pub server_url: Seq<char>,
    pub username: Seq<char>,
    pub auth_kind: AuthKind,
    pub auth_secret: Seq<char>,
    pub remote_folder: Seq<char>,
    pub collision: CollisionPolicy,
    pub last_test_outcome: Option<TestOutcomeView>,
    pub probe_progress: ProbeProgress,
    pub alias_override: Option<Seq<char>>,
}

impl View for WizardState {
    type V = WizardStateView;

    open spec fn view(&self) -> WizardStateView {
        WizardStateView {
            provider_kind: self.provider_kind,
            server_url: self.server_url@,
            username: self.username@,
            auth_kind: self.auth_kind,
            auth_secret: self.auth_secret@,
            remote_folder: self.remote_folder@,
            collision: self.collision,
            last_test_outcome: opt_outcome_view(self.last_test_outcome),
            probe_progress: self.probe_progress,
            alias_override: opt_str_view(self.alias_override),
        }
    }
}

/// A freshly started wizard.
pub open spec fn fresh_wizard() -> WizardStateView {
    WizardStateView {
        provider_kind: ProviderKind::Nextcloud,
        server_url: Seq::empty(),
        username: Seq::empty(),
        auth_kind: AuthKind::AppPassword,
        auth_secret: Seq::empty(),
        remote_folder: Seq::empty(),
        collision: CollisionPolicy::Rename,
        last_test_outcome: None,
        probe_progress: ProbeProgress {
            ensure: ProbeStepStatus::Pending,
            marker: ProbeStepStatus::Pending,
            upload: ProbeStepStatus::Pending,
            cleanup: ProbeStepStatus::Pending,
        },
        alias_override: None,
    }
}

/// The scheme that the `url` crate finds in `input` when it parses
/// it as an absolute URL; `None` when parsing fails.
pub uninterp spec fn url_scheme_of(input: Seq<char>) -> Option<Seq<char>>;

/// Parses `input` with `url::Url::parse` and hands back the scheme of
/// the result (lower-cased, without the `:`), or `None` when the
/// input is not an absolute URL. Claims only that the result is
/// `url_scheme_of(input)`.
#[verifier::external_body]
fn parse_url_scheme(input: &str) -> (r: Option<String>)
    ensures
        opt_str_view(r) == url_scheme_of(input@),
{
    match url::Url::parse(input) {
        Ok(u) => Some(u.scheme().to_string()),
        Err(_) => None,
    }
}

/// A server URL is acceptable when, trimmed, it parses as an `http`
/// or `https` URL.
pub open spec fn server_url_ok(s: Seq<char>) -> bool {
    &&& trim_spec(s).len() > 0
    &&& match url_scheme_of(trim_spec(s)) {
        Some(sch) => sch == "https"@ || sch == "http"@,
        None => false,
    }
}

impl WizardState {
    pub fn new() -> (w: Self)
        ensures
            w@ == fresh_wizard(),
    {
        WizardState {
            provider_kind: ProviderKind::Nextcloud,
            server_url: String::new(),
            username: String::new(),
            auth_kind: AuthKind::AppPassword,
            auth_secret: String::new(),
            remote_folder: String::new(),
            collision: CollisionPolicy::Rename,
            last_test_outcome: None,
            probe_progress: ProbeProgress {
                ensure: ProbeStepStatus::Pending,
                marker: ProbeStepStatus::Pending,
                upload: ProbeStepStatus::Pending,
                cleanup: ProbeStepStatus::Pending,
            },
            alias_override: None,
        }
    }

    pub fn server_url_valid(&self) -> (b: bool)
        ensures
            b == server_url_ok(self@.server_url),
    {
        let s = trim(self.server_url.as_str());
        if s.as_str().is_empty() {
            return false;
        }
        match parse_url_scheme(s.as_str()) {
            Some(sch) => str_eq(sch.as_str(), "https") || str_eq(sch.as_str(), "http"),
            None => false,
        }
    }

    pub fn username_valid(&self) -> (b: bool)
        ensures
            b == (trim_spec(self@.username).len() > 0),
    {
        !is_blank(self.username.as_str())
    }

    pub fn secret_valid(&self) -> (b: bool)
        ensures
            b == (self@.auth_secret.len() > 0),
    {
        !self.auth_secret.as_str().is_empty()
    }

    /// The remote folder with surrounding white space removed, or
    /// `None` when nothing else is left. This is the value whose
    /// encoding the provider layer has to accept.
    pub fn remote_folder_candidate(&self) -> (r: Option<String>)
        ensures
            trim_spec(self@.remote_folder).len() == 0 ==> r is None,
            trim_spec(self@.remote_folder).len() > 0 ==> (r matches Some(t) && t@ == trim_spec(
                self@.remote_folder,
            )),
    {
        let t = trim(self.remote_folder.as_str());
        if t.as_str().is_empty() {
            None
        } else {
            Some(t)
        }
    }

    /// The remote folder is valid when it is not blank and its trimmed
    /// form is accepted by the provider's path encoder, whose verdict
    /// is `encodable`.
    pub fn remote_folder_valid(&self, encodable: bool) -> (b: bool)
        ensures
            b == (trim_spec(self@.remote_folder).len() > 0 && encodable),
    {
        !is_blank(self.remote_folder.as_str()) && encodable
    }

    /// Debug text that never shows any of the fields.
    pub fn debug_redacted_does_not_leak(&self) -> (s: String)
        ensures
            s@ == "WizardState { <redacted> }"@,
    {
        from_str("WizardState { <redacted> }")
    }
}

#[derive(Clone, Copy, Debug, Default, PartialEq, Eq, Structural)]
pub enum WelcomeItem {
    /// Open the local-only container.
    OpenLocal,
    /// Open the server-synced container cache.
    OpenRemote,
    /// Create a local container (or add a connection to it).
    #[default]
    Configure,
    /// Create a container and push it to a server.
    ConfigureRemote,
    /// Sign in and download a container from a server.
    SignIn,
    Quit,
}

/// Index of the first occurrence of `x` in `s`.
pub open spec fn index_of<T>(s: Seq<T>, x: T) -> Option<int>
    decreases s.len(),
{
    if s.len() == 0 {
        None
    } else if s[0] == x {
        Some(0)
    } else {
        match index_of(s.drop_first(), x) {
            Some(i) => Some(i + 1),
            None => None,
        }
    }
}

pub proof fn lemma_index_of<T>(s: Seq<T>, x: T)
    ensures
        match index_of(s, x) {
            Some(i) => 0 <= i < s.len() && s[i] == x && forall|j: int| 0 <= j < i ==> s[j] != x,
            None => forall|j: int| 0 <= j < s.len() ==> s[j] != x,
        },
    decreases s.len(),
{
    if s.len() > 0 {
        lemma_index_of(s.drop_first(), x);
        if s[0] != x {
            assert forall|j: int| 0 < j < s.len() implies s[j] == s.drop_first()[j - 1] by {}
        }
    }
}

/// The item after `item` in `avail`, wrapping around; the first item
/// when `item` is not listed; `item` itself when `avail` is empty.
pub open spec fn next_item(item: WelcomeItem, avail: Seq<WelcomeItem>) -> WelcomeItem {
    match index_of(avail, item) {
        Some(i) => if i + 1 < avail.len() {
            avail[i + 1]
        } else {
            avail[0]
        },
        None => if avail.len() > 0 {
            avail[0]
        } else {
            item
        },
    }
}

/// The item before `item` in `avail`, wrapping around; the first item
/// when `item` is not listed; `item` itself when `avail` is empty.
pub open spec fn previous_item(item: WelcomeItem, avail: Seq<WelcomeItem>) -> WelcomeItem {
    match index_of(avail, item) {
        Some(i) => if i == 0 {
            avail.last()
        } else {
            avail[i - 1]
        },
        None => if avail.len() > 0 {
            avail[0]
        } else {
            item
        },
    }
}

/// In a sequence without repeats, the first index of the element at
/// `k` is `k`.
pub proof fn lemma_index_of_distinct<T>(s: Seq<T>, k: int)
    requires
        s.no_duplicates(),
        0 <= k < s.len(),
    ensures
        index_of(s, s[k]) == Some(k),
{
    lemma_index_of(s, s[k]);
    match index_of(s, s[k]) {
        Some(i) => {
            if i > k {
                assert(s[k] != s[k]);
            }
        },
        None => {
            assert(s[k] != s[k]);
        },
    }
}

/// On a menu that lists no item twice, stepping to the next item and
/// back, or to the previous item and forward, lands on the item
/// started from.
pub proof fn law_next_previous_inverse(x: WelcomeItem, avail: Seq<WelcomeItem>)
    requires
        avail.no_duplicates(),
        avail.contains(x),
    ensures
        previous_item(next_item(x, avail), avail) == x,
        next_item(previous_item(x, avail), avail) == x,
{
    let k = choose|k: int| 0 <= k < avail.len() && avail[k] == x;
    let n = avail.len() as int;
    lemma_index_of_distinct(avail, k);
    let j = if k + 1 < n { k + 1 } else { 0 };
    lemma_index_of_distinct(avail, j);
    let p = if k == 0 { n - 1 } else { k - 1 };
    lemma_index_of_distinct(avail, p);
}

fn position_in(item: WelcomeItem, available: &[WelcomeItem]) -> (r: Option<usize>)
    ensures
        r matches Some(i) ==> i < available@.len(),
        match index_of(available@, item) {
            Some(i) => r == Some(i as usize),
            None => r is None,
        },
{
    proof {
        lemma_index_of(available@, item);
    }
    let mut i: usize = 0;
    while i < available.len()
        invariant
            i <= available@.len(),
            forall|j: int| 0 <= j < i ==> available@[j] != item,
            match index_of(available@, item) {
                Some(k) => 0 <= k < available@.len() && available@[k] == item && forall|j: int|
                    0 <= j < k ==> available@[j] != item,
                None => forall|j: int| 0 <= j < available@.len() ==> available@[j] != item,
            },
        decreases available.len() - i,
    {
        if available[i] == item {
            return Some(i);
        }
        i = i + 1;
    }
    None
}

impl WelcomeItem {
    /// Cycle to the next item in `available`.
    pub fn next_in(self, available: &[Self]) -> (r: Self)
        ensures
            r == next_item(self, available@),
    {
        proof {
            lemma_index_of(available@, self);
        }
        match position_in(self, available) {
            Some(i) => if i < available.len() - 1 {
                available[i + 1]
            } else {
                available[0]
            },
            None => if available.len() > 0 {
                available[0]
            } else {
                self
            },
        }
    }

    pub fn previous_in(self, available: &[Self]) -> (r: Self)
        ensures
            r == previous_item(self, available@),
    {
        proof {
            lemma_index_of(available@, self);
        }
        match position_in(self, available) {
            Some(i) => if i == 0 {
                available[available.len() - 1]
            } else {
                available[i - 1]
            },
            None => if available.len() > 0 {
                available[0]
            } else {
                self
            },
        }
    }
}

/// Whether the wizard creates a local container, creates one and
/// pushes it, or adds a connection to an unlocked container.
#[derive(Clone, Copy, Debug, Default, PartialEq, Eq, Structural)]
pub enum WizardMode {
    #[default]
    CreateLocal,
    CreateRemote,
    AddInnerProfile,
}

/// Stage of the open-existing-profile flow.
#[derive(Clone, Copy, Debug, Default, PartialEq, Eq, Structural)]
pub enum ManageStage {
    #[default]
    Locked,
    Unlocking,
    Viewing,
    WipeConfirm,
    Wiping,
    DeleteInnerConfirm,
    DeletingInner,
}

#[derive(Clone, Copy, Debug, Default, PartialEq, Eq, Structural)]
pub enum AuthKind {
    #[default]
    AppPassword,
    LoginFlow,
}

impl AuthKind {
    pub open spec fn label_spec(self) -> Seq<char> {
        match self {
            AuthKind::AppPassword => "app password"@,
            AuthKind::LoginFlow => "login flow"@,
        }
    }

    pub open spec fn next_spec(self) -> AuthKind {
        match self {
            AuthKind::AppPassword => AuthKind::LoginFlow,
            AuthKind::LoginFlow => AuthKind::AppPassword,
        }
    }

    pub fn label(self) -> (s: &'static str)
        ensures
            s@ == self.label_spec(),
    {
        match self {
            AuthKind::AppPassword => "app password",
            AuthKind::LoginFlow => "login flow",
        }
    }

    pub fn next(self) -> (k: Self)
        ensures
            k == self.next_spec(),
    {
        match self {
            AuthKind::AppPassword => AuthKind::LoginFlow,
            AuthKind::LoginFlow => AuthKind::AppPassword,
        }
    }
}

#[derive(Clone, Debug, Default, PartialEq, Eq)]
pub enum LoginFlowStage {
    #[default]
    NotStarted,
    Initiating,
    Polling,
    Done,
    Failed(String),
}

pub enum LoginFlowStageView {
    NotStarted,
    Initiating,
    Polling,
    Done,
    Failed(Seq<char>),
}

impl View for LoginFlowStage {
    type V = LoginFlowStageView;

    open spec fn view(&self) -> LoginFlowStageView {
        match self {
            LoginFlowStage::NotStarted => LoginFlowStageView::NotStarted,
            LoginFlowStage::Initiating => LoginFlowStageView::Initiating,
            LoginFlowStage::Polling => LoginFlowStageView::Polling,
            LoginFlowStage::Done => LoginFlowStageView::Done,
            LoginFlowStage::Failed(s) => LoginFlowStageView::Failed(s@),
        }
    }
}

impl LoginFlowStage {
    pub fn name(&self) -> (s: &'static str)
        ensures
            s@ == login_stage_name(self@),
    {
        match self {
            LoginFlowStage::NotStarted => "NotStarted",
            LoginFlowStage::Initiating => "Initiating",
            LoginFlowStage::Polling => "Polling",
            LoginFlowStage::Done => "Done",
            LoginFlowStage::Failed(_) => "Failed",
        }
    }
}

pub open spec fn login_stage_name(s: LoginFlowStageView) -> Seq<char> {
    match s {
        LoginFlowStageView::NotStarted => "NotStarted"@,
        LoginFlowStageView::Initiating => "Initiating"@,
        LoginFlowStageView::Polling => "Polling"@,
        LoginFlowStageView::Done => "Done"@,
        LoginFlowStageView::Failed(_) => "Failed"@,
    }
}

/// Nextcloud login-flow v2 state.
pub struct LoginFlowState {
    pub stage: LoginFlowStage,
    pub login_url: String,
    pub poll_token: String,
    pub poll_endpoint: String,
    pub show_url_modal: bool,
    pub show_qr: bool,
    /// Force the half-block text QR instead of an inline image.
    pub disable_inline_qr: bool,
    pub clipboard_message: Option<&'static str>,
    pub browser_message: Option<&'static str>,
}

pub struct LoginFlowStateView {
    pub stage: LoginFlowStageView,
    pub login_url: Seq<char>,
    pub poll_token: Seq<char>,
    pub poll_endpoint: Seq<char>,
    pub show_url_modal: bool,
    pub show_qr: bool,
    pub disable_inline_qr: bool,
    pub clipboard_message: Option<Seq<char>>,
    pub browser_message: Option<Seq<char>>,
}

impl View for LoginFlowState {
    type V = LoginFlowStateView;

    open spec fn view(&self) -> LoginFlowStateView {
        LoginFlowStateView {
            stage: self.stage@,
            login_url: self.login_url@,
            poll_token: self.poll_token@,
            poll_endpoint: self.poll_endpoint@,
            show_url_modal: self.show_url_modal,
            show_qr: self.show_qr,
            disable_inline_qr: self.disable_inline_qr,
            clipboard_message: opt_static_view(self.clipboard_message),
            browser_message: opt_static_view(self.browser_message),
        }
    }
}

/// A login flow that has not started; the QR is shown by default.
pub open spec fn fresh_login_flow() -> LoginFlowStateView {
    LoginFlowStateView {
        stage: LoginFlowStageView::NotStarted,
        login_url: Seq::empty(),
        poll_token: Seq::empty(),
        poll_endpoint: Seq::empty(),
        show_url_modal: false,
        show_qr: true,
        disable_inline_qr: false,
        clipboard_message: None,
        browser_message: None,
    }
}

impl Default for LoginFlowState {
    fn default() -> (s: Self)
        ensures
            s@ == fresh_login_flow(),
    {
        LoginFlowState {
            stage: LoginFlowStage::NotStarted,
            login_url: String::new(),
            poll_token: String::new(),
            poll_endpoint: String::new(),
            show_url_modal: false,
            show_qr: true,
            disable_inline_qr: false,
            clipboard_message: None,
            browser_message: None,
        }
    }
}

/// `s` cut to at most `max` characters by replacing its middle with
/// `…`: the head keeps the larger half of what is left.
pub open spec fn truncate_middle_spec(s: Seq<char>, max: nat) -> Seq<char> {
    if s.len() <= max {
        s
    } else if max <= 1 {
        seq!['…']
    } else {
        let keep = (max - 1) as nat;
        let head_len = (keep + 1) / 2;
        let tail_len = keep - head_len;
        s.subrange(0, head_len as int) + seq!['…'] + s.subrange(
            s.len() - tail_len,
            s.len() as int,
        )
    }
}

pub fn truncate_middle(s: &str, max_chars: usize) -> (r: String)
    ensures
        r@ == truncate_middle_spec(s@, max_chars as nat),
{
    let len = char_count(s);
    if len <= max_chars {
        return s.to_owned();
    }
    if max_chars <= 1 {
        let mut out = String::new();
        string_push(&mut out, '…');
        assert(out@ =~= seq!['…']);
        return out;
    }
    let keep = max_chars - 1;
    let head_len = keep / 2 + keep % 2;
    let tail_len = keep - head_len;
    assert(head_len == (keep + 1) / 2);
    let mut out = s.substring_char(0, head_len).to_owned();
    string_push(&mut out, '…');
    out.append(s.substring_char(len - tail_len, len));
    out
}

/// `s` holds `"://"` at index `i`.
pub open spec fn scheme_sep_at(s: Seq<char>, i: int) -> bool {
    0 <= i && i + 3 <= s.len() && s[i] == ':' && s[i + 1] == '/' && s[i + 2] == '/'
}

/// Index of the first `"://"` at or after `i`.
pub open spec fn scheme_sep_from(s: Seq<char>, i: nat) -> Option<int>
    decreases s.len() - i,
{
    if i + 3 > s.len() {
        None
    } else if scheme_sep_at(s, i as int) {
        Some(i as int)
    } else {
        scheme_sep_from(s, i + 1)
    }
}

/// Index of the first `'/'` at or after `i`.
pub open spec fn slash_from(s: Seq<char>, i: nat) -> Option<int>
    decreases s.len() - i,
{
    if i >= s.len() {
        None
    } else if s[i as int] == '/' {
        Some(i as int)
    } else {
        slash_from(s, i + 1)
    }
}

/// `scheme://host` of a URL; the whole text when it has no scheme
/// separator or no `/` after it.
pub open spec fn url_host_spec(url: Seq<char>) -> Seq<char> {
    match scheme_sep_from(url, 0) {
        None => url,
        Some(i) => match slash_from(url, (i + 3) as nat) {
            Some(j) => url.subrange(0, j),
            None => url,
        },
    }
}

proof fn lemma_scheme_sep_from_bounds(s: Seq<char>, i: nat)
    ensures
        scheme_sep_from(s, i) matches Some(k) ==> i <= k && k + 3 <= s.len(),
    decreases s.len() - i,
{
    if i + 3 <= s.len() && !scheme_sep_at(s, i as int) {
        lemma_scheme_sep_from_bounds(s, i + 1);
    }
}

pub proof fn lemma_slash_from_bounds(s: Seq<char>, i: nat)
    ensures
        slash_from(s, i) matches Some(k) ==> i <= k < s.len(),
    decreases s.len() - i,
{
    if i < s.len() && s[i as int] != '/' {
        lemma_slash_from_bounds(s, i + 1);
    }
}

fn find_scheme_sep(v: &Vec<char>) -> (r: Option<usize>)
    ensures
        r matches Some(i) ==> i + 3 <= v@.len(),
        match scheme_sep_from(v@, 0) {
            Some(i) => r == Some(i as usize),
            None => r is None,
        },
{
    proof {
        lemma_scheme_sep_from_bounds(v@, 0);
    }
    let n = v.len();
    let mut i: usize = 0;
    while n >= 3 && i <= n - 3
        invariant
            n == v@.len(),
            scheme_sep_from(v@, 0) == scheme_sep_from(v@, i as nat),
        decreases n - i,
    {
        if v[i] == ':' && v[i + 1] == '/' && v[i + 2] == '/' {
            return Some(i);
        }
        i = i + 1;
    }
    None
}

pub fn find_slash_from(v: &Vec<char>, from: usize) -> (r: Option<usize>)
    ensures
        match slash_from(v@, from as nat) {
            Some(i) => r == Some(i as usize),
            None => r is None,
        },
{
    let n = v.len();
    let mut i: usize = from;
    while i < n
        invariant
            n == v@.len(),
            slash_from(v@, from as nat) == slash_from(v@, i as nat),
        decreases n - i,
    {
        if v[i] == '/' {
            return Some(i);
        }
        i = i + 1;
    }
    None
}

impl LoginFlowState {
    pub fn truncated_login_url(&self, max_chars: usize) -> (s: String)
        ensures
            s@ == truncate_middle_spec(self@.login_url, max_chars as nat),
    {
        truncate_middle(self.login_url.as_str(), max_chars)
    }

    /// `scheme://host` of the login URL.
    pub fn login_url_host(&self) -> (s: String)
        ensures
            s@ == url_host_spec(self@.login_url),
    {
        let v = string_chars(self.login_url.as_str());
        assert(v@ == self@.login_url);
        let sep = find_scheme_sep(&v);
        if sep.is_none() {
            return self.login_url.clone();
        }
        let i = sep.unwrap();
        let ghost gi: int = i as int;
        proof {
            lemma_scheme_sep_from_bounds(v@, 0);
        }
        assert(scheme_sep_from(v@, 0) == Some(gi));
        let slash = find_slash_from(&v, i + 3);
        assert(((gi + 3) as nat) == ((i + 3) as nat));
        if slash.is_none() {
            return self.login_url.clone();
        }
        let j = slash.unwrap();
        proof {
            lemma_slash_from_bounds(v@, (i + 3) as nat);
        }
        let sub = self.login_url.as_str().substring_char(0, j);
        sub.to_owned()
    }

    /// Debug text that shows the stage but not the URL or the token.
    pub fn redacted_debug(&self) -> (s: String)
        ensures
            s@ == "LoginFlowState { stage: "@ + login_stage_name(self@.stage)
                + ", <url+token redacted> }"@,
    {
        let mut s = from_str("LoginFlowState { stage: ");
        s.append(self.stage.name());
        s.append(", <url+token redacted> }");
        s
    }
}

/// Stages of the OAuth device-authorization flow (Google Drive and
/// OneDrive).
#[derive(Clone, Debug, Default, PartialEq, Eq)]
pub enum GoogleDriveSetupStage {
    #[default]
    NotStarted,
    Initiating,
    Polling,
    Fetching,
    Done,
    Failed(String),
}

pub enum DeviceStageView {
    NotStarted,
    Initiating,
    Polling,
    Fetching,
    Done,
    Failed(Seq<char>),
}

impl View for GoogleDriveSetupStage {
    type V = DeviceStageView;

    open spec fn view(&self) -> DeviceStageView {
        match self {
            GoogleDriveSetupStage::NotStarted => DeviceStageView::NotStarted,
            GoogleDriveSetupStage::Initiating => DeviceStageView::Initiating,
            GoogleDriveSetupStage::Polling => DeviceStageView::Polling,
            GoogleDriveSetupStage::Fetching => DeviceStageView::Fetching,
            GoogleDriveSetupStage::Done => DeviceStageView::Done,
            GoogleDriveSetupStage::Failed(s) => DeviceStageView::Failed(s@),
        }
    }
}

pub open spec fn device_stage_name(s: DeviceStageView) -> Seq<char> {
    match s {
        DeviceStageView::NotStarted => "NotStarted"@,
        DeviceStageView::Initiating => "Initiating"@,
        DeviceStageView::Polling => "Polling"@,
        DeviceStageView::Fetching => "Fetching"@,
        DeviceStageView::Done => "Done"@,
        DeviceStageView::Failed(_) => "Failed"@,
    }
}

impl GoogleDriveSetupStage {
    pub fn name(&self) -> (s: &'static str)
        ensures
            s@ == device_stage_name(self@),
    {
        match self {
            GoogleDriveSetupStage::NotStarted => "NotStarted",
            GoogleDriveSetupStage::Initiating => "Initiating",
            GoogleDriveSetupStage::Polling => "Polling",
            GoogleDriveSetupStage::Fetching => "Fetching",
            GoogleDriveSetupStage::Done => "Done",
            GoogleDriveSetupStage::Failed(_) => "Failed",
        }
    }
}

/// Device-flow setup state (Google Drive; OneDrive shares it).
pub struct GoogleDriveSetupState {
    pub stage: GoogleDriveSetupStage,
    pub user_code: String,
    pub verification_uri: String,
    pub verification_uri_complete: Option<String>,
    pub device_code: String,
    /// Unix time at which the device code expires.
    pub expires_at: u64,
    /// Polling cadence in seconds.
    pub interval_secs: u64,
    pub last_poll_at: u64,
    pub show_url_modal: bool,
    pub show_qr: bool,
    pub disable_inline_qr: bool,
    pub clipboard_message: Option<&'static str>,
    pub browser_message: Option<&'static str>,
    pub root_folder: String,
    pub user_email: String,
    pub access_token: String,
    pub refresh_token: String,
    pub token_type: String,
    pub access_expires_at: u64,
    pub scope: String,
}

pub struct DeviceSetupView {
    pub stage: DeviceStageView,
    pub user_code: Seq<char>,
    pub verification_uri: Seq<char>,
    pub verification_uri_complete: Option<Seq<char>>,
    pub device_code: Seq<char>,
    pub expires_at: u64,
    pub interval_secs: u64,
    pub last_poll_at: u64,
    pub show_url_modal: bool,
    pub show_qr: bool,
    pub disable_inline_qr: bool,
    pub clipboard_message: Option<Seq<char>>,
    pub browser_message: Option<Seq<char>>,
    pub root_folder: Seq<char>,
    pub user_email: Seq<char>,
    pub access_token: Seq<char>,
    pub refresh_token: Seq<char>,
    pub token_type: Seq<char>,
    pub access_expires_at: u64,
    pub scope: Seq<char>,
}

impl View for GoogleDriveSetupState {
    type V = DeviceSetupView;

    open spec fn view(&self) -> DeviceSetupView {
        DeviceSetupView {
            stage: self.stage@,
            user_code: self.user_code@,
            verification_uri: self.verification_uri@,
            verification_uri_complete: opt_str_view(self.verification_uri_complete),
            device_code: self.device_code@,
            expires_at: self.expires_at,
            interval_secs: self.interval_secs,
            last_poll_at: self.last_poll_at,
            show_url_modal: self.show_url_modal,
            show_qr: self.show_qr,
            disable_inline_qr: self.disable_inline_qr,
            clipboard_message: opt_static_view(self.clipboard_message),
            browser_message: opt_static_view(self.browser_message),
            root_folder: self.root_folder@,
            user_email: self.user_email@,
            access_token: self.access_token@,
            refresh_token: self.refresh_token@,
            token_type: self.token_type@,
            access_expires_at: self.access_expires_at,
            scope: self.scope@,
        }
    }
}

/// A device flow that has not started: 5 s polling, QR shown, folder
/// `zz-drop`.
pub open spec fn fresh_device_setup() -> DeviceSetupView {
    DeviceSetupView {
        stage: DeviceStageView::NotStarted,
        user_code: Seq::empty(),
        verification_uri: Seq::empty(),
        verification_uri_complete: None,
        device_code: Seq::empty(),
        expires_at: 0,
        interval_secs: 5,
        last_poll_at: 0,
        show_url_modal: false,
        show_qr: true,
        disable_inline_qr: false,
        clipboard_message: None,
        browser_message: None,
        root_folder: "zz-drop"@,
        user_email: Seq::empty(),
        access_token: Seq::empty(),
        refresh_token: Seq::empty(),
        token_type: Seq::empty(),
        access_expires_at: 0,
        scope: Seq::empty(),
    }
}

impl Default for GoogleDriveSetupState {
    fn default() -> (s: Self)
        ensures
            s@ == fresh_device_setup(),
    {
        GoogleDriveSetupState {
            stage: GoogleDriveSetupStage::NotStarted,
            user_code: String::new(),
            verification_uri: String::new(),
            verification_uri_complete: None,
            device_code: String::new(),
            expires_at: 0,
            interval_secs: 5,
            last_poll_at: 0,
            show_url_modal: false,
            show_qr: true,
            disable_inline_qr: false,
            clipboard_message: None,
            browser_message: None,
            root_folder: from_str("zz-drop"),
            user_email: String::new(),
            access_token: String::new(),
            refresh_token: String::new(),
            token_type: String::new(),
            access_expires_at: 0,
            scope: String::new(),
        }
    }
}

/// The URL to encode in the QR: the complete verification URI when the
/// server sent one, the basic one otherwise.
pub open spec fn device_qr_url(s: DeviceSetupView) -> Seq<char> {
    match s.verification_uri_complete {
        Some(u) => u,
        None => s.verification_uri,
    }
}

impl GoogleDriveSetupState {
    /// Whether the device code has run out at Unix time `now` (a code
    /// without a known lifetime never does).
    pub fn code_expired(&self, now: u64) -> (b: bool)
        ensures
            b == (self.expires_at > 0 && now >= self.expires_at),
    {
        self.expires_at > 0 && now >= self.expires_at
    }

    /// Seconds to wait between two polls of the token endpoint: the
    /// server's interval, at least one second.
    pub fn poll_interval_secs(&self) -> (s: u64)
        ensures
            s == if self.interval_secs == 0 { 1 } else { self.interval_secs },
    {
        if self.interval_secs == 0 {
            1
        } else {
            self.interval_secs
        }
    }

    pub fn qr_url(&self) -> (s: &str)
        ensures
            s@ == device_qr_url(self@),
    {
        match &self.verification_uri_complete {
            Some(u) => u.as_str(),
            None => self.verification_uri.as_str(),
        }
    }

    /// Debug text: the stage and whether an email is known, no secret.
    pub fn redacted_debug(&self) -> (s: String)
        ensures
            s@ == "GoogleDriveSetupState { stage: "@ + device_stage_name(self@.stage)
                + ", user_email_set: "@ + (if self@.user_email.len() > 0 {
                "true"@
            } else {
                "false"@
            }) + ", <secrets redacted> }"@,
    {
        let mut s = from_str("GoogleDriveSetupState { stage: ");
        s.append(self.stage.name());
        s.append(", user_email_set: ");
        if self.user_email.as_str().is_empty() {
            s.append("false");
        } else {
            s.append("true");
        }
        s.append(", <secrets redacted> }");
        s
    }
}

/// OneDrive runs the same device flow as Google Drive.
pub type OneDriveSetupState = GoogleDriveSetupState;

pub type OneDriveSetupStage = GoogleDriveSetupStage;

/// Stages of the Dropbox authorization-code + PKCE paste-code flow.
#[derive(Clone, Debug, Default, PartialEq, Eq)]
pub enum DropboxSetupStage {
    #[default]
    NotStarted,
    Initiating,
    AwaitingPaste,
    Exchanging,
    Fetching,
    Done,
    Failed(String),
}

pub enum DropboxStageView {
    NotStarted,
    Initiating,
    AwaitingPaste,
    Exchanging,
    Fetching,
    Done,
    Failed(Seq<char>),
}

impl View for DropboxSetupStage {
    type V = DropboxStageView;

    open spec fn view(&self) -> DropboxStageView {
        match self {
            DropboxSetupStage::NotStarted => DropboxStageView::NotStarted,
            DropboxSetupStage::Initiating => DropboxStageView::Initiating,
            DropboxSetupStage::AwaitingPaste => DropboxStageView::AwaitingPaste,
            DropboxSetupStage::Exchanging => DropboxStageView::Exchanging,
            DropboxSetupStage::Fetching => DropboxStageView::Fetching,
            DropboxSetupStage::Done => DropboxStageView::Done,
            DropboxSetupStage::Failed(s) => DropboxStageView::Failed(s@),
        }
    }
}

pub open spec fn dropbox_stage_name(s: DropboxStageView) -> Seq<char> {
    match s {
        DropboxStageView::NotStarted => "NotStarted"@,
        DropboxStageView::Initiating => "Initiating"@,
        DropboxStageView::AwaitingPaste => "AwaitingPaste"@,
        DropboxStageView::Exchanging => "Exchanging"@,
        DropboxStageView::Fetching => "Fetching"@,
        DropboxStageView::Done => "Done"@,
        DropboxStageView::Failed(_) => "Failed"@,
    }
}

impl DropboxSetupStage {
    pub fn name(&self) -> (s: &'static str)
        ensures
            s@ == dropbox_stage_name(self@),
    {
        match self {
            DropboxSetupStage::NotStarted => "NotStarted",
            DropboxSetupStage::Initiating => "Initiating",
            DropboxSetupStage::AwaitingPaste => "AwaitingPaste",
            DropboxSetupStage::Exchanging => "Exchanging",
            DropboxSetupStage::Fetching => "Fetching",
            DropboxSetupStage::Done => "Done",
            DropboxSetupStage::Failed(_) => "Failed",
        }
    }
}

/// Dropbox setup state.
pub struct DropboxSetupState {
    pub stage: DropboxSetupStage,
    pub authorize_url: String,
    /// PKCE secret; cleared once the code has been exchanged.
    pub code_verifier: String,
    /// The authorization code the operator pastes back.
    pub pasted_code: TextInput,
    pub show_url_modal: bool,
    pub show_qr: bool,
    pub disable_inline_qr: bool,
    pub clipboard_message: Option<&'static str>,
    pub browser_message: Option<&'static str>,
    pub root_folder: String,
    pub user_email: String,
    pub access_token: String,
    pub refresh_token: String,
    pub token_type: String,
    pub access_expires_at: u64,
    pub scope: String,
}

pub struct DropboxSetupView {
    pub stage: DropboxStageView,
    pub authorize_url: Seq<char>,
    pub code_verifier: Seq<char>,
    pub pasted_code: TextInputView,
    pub show_url_modal: bool,
    pub show_qr: bool,
    pub disable_inline_qr: bool,
    pub clipboard_message: Option<Seq<char>>,
    pub browser_message: Option<Seq<char>>,
    pub root_folder: Seq<char>,
    pub user_email: Seq<char>,
    pub access_token: Seq<char>,
    pub refresh_token: Seq<char>,
    pub token_type: Seq<char>,
    pub access_expires_at: u64,
    pub scope: Seq<char>,
}

impl View for DropboxSetupState {
    type V = DropboxSetupView;

    open spec fn view(&self) -> DropboxSetupView {
        DropboxSetupView {
            stage: self.stage@,
            authorize_url: self.authorize_url@,
            code_verifier: self.code_verifier@,
            pasted_code: self.pasted_code@,
            show_url_modal: self.show_url_modal,
            show_qr: self.show_qr,
            disable_inline_qr: self.disable_inline_qr,
            clipboard_message: opt_static_view(self.clipboard_message),
            browser_message: opt_static_view(self.browser_message),
            root_folder: self.root_folder@,
            user_email: self.user_email@,
            access_token: self.access_token@,
            refresh_token: self.refresh_token@,
            token_type: self.token_type@,
            access_expires_at: self.access_expires_at,
            scope: self.scope@,
        }
    }
}

pub open spec fn fresh_dropbox_setup() -> DropboxSetupView {
    DropboxSetupView {
        stage: DropboxStageView::NotStarted,
        authorize_url: Seq::empty(),
        code_verifier: Seq::empty(),
        pasted_code: empty_input(),
        show_url_modal: false,
        show_qr: true,
        disable_inline_qr: false,
        clipboard_message: None,
        browser_message: None,
        root_folder: "zz-drop"@,
        user_email: Seq::empty(),
        access_token: Seq::empty(),
        refresh_token: Seq::empty(),
        token_type: Seq::empty(),
        access_expires_at: 0,
        scope: Seq::empty(),
    }
}

impl Default for DropboxSetupState {
    fn default() -> (s: Self)
        ensures
            s@ == fresh_dropbox_setup(),
    {
        DropboxSetupState {
            stage: DropboxSetupStage::NotStarted,
            authorize_url: String::new(),
            code_verifier: String::new(),
            pasted_code: TextInput::new(),
            show_url_modal: false,
            show_qr: true,
            disable_inline_qr: false,
            clipboard_message: None,
            browser_message: None,
            root_folder: from_str("zz-drop"),
            user_email: String::new(),
            access_token: String::new(),
            refresh_token: String::new(),
            token_type: String::new(),
            access_expires_at: 0,
            scope: String::new(),
        }
    }
}

/// A character that may appear in a Dropbox authorization code.
pub open spec fn code_char_ok(c: char) -> bool {
    is_ascii_alnum(c) || c == '-' || c == '_'
}

/// Shortest code the exchange is attempted with.
pub const MIN_PASTED_CODE_LEN: usize = 10;

/// A pasted code looks usable: long enough and made of code
/// characters only.
pub open spec fn pasted_code_ok(s: Seq<char>) -> bool {
    s.len() >= MIN_PASTED_CODE_LEN && forall|i: int| 0 <= i < s.len() ==> code_char_ok(#[trigger] s[i])
}

impl DropboxSetupState {
    pub fn qr_url(&self) -> (s: &str)
        ensures
            s@ == self@.authorize_url,
    {
        self.authorize_url.as_str()
    }

    pub fn pasted_code_appears_valid(&self) -> (b: bool)
        ensures
            b == pasted_code_ok(self@.pasted_code.value),
    {
        let s = self.pasted_code.value();
        let n = char_count(s);
        if n < MIN_PASTED_CODE_LEN {
            return false;
        }
        let mut i: usize = 0;
        while i < n
            invariant
                n == s@.len(),
                s@ == self@.pasted_code.value,
                i <= n,
                forall|j: int| 0 <= j < i ==> code_char_ok(#[trigger] s@[j]),
            decreases n - i,
        {
            let c = char_at(s, i);
            if !(char_is_ascii_alnum(c) || c == '-' || c == '_') {
                assert(!code_char_ok(s@[i as int]));
                return false;
            }
            i = i + 1;
        }
        true
    }

    /// Debug text: the stage and whether an email is known, no secret.
    pub fn redacted_debug(&self) -> (s: String)
        ensures
            s@ == "DropboxSetupState { stage: "@ + dropbox_stage_name(self@.stage)
                + ", user_email_set: "@ + (if self@.user_email.len() > 0 {
                "true"@
            } else {
                "false"@
            }) + ", <secrets redacted> }"@,
    {
        let mut s = from_str("DropboxSetupState { stage: ");
        s.append(self.stage.name());
        s.append(", user_email_set: ");
        if self.user_email.as_str().is_empty() {
            s.append("false");
        } else {
            s.append("true");
        }
        s.append(", <secrets redacted> }");
        s
    }
}

#[derive(Clone, Copy, Debug, PartialEq, Eq, Structural)]
pub enum PassphraseFocus {
    Passphrase,
    Confirm,
}

impl PassphraseFocus {
    pub open spec fn next_spec(self) -> PassphraseFocus {
        match self {
            PassphraseFocus::Passphrase => PassphraseFocus::Confirm,
            PassphraseFocus::Confirm => PassphraseFocus::Passphrase,
        }
    }

    pub fn next(self) -> (f: Self)
        ensures
            f == self.next_spec(),
    {
        match self {
            PassphraseFocus::Passphrase => PassphraseFocus::Confirm,
            PassphraseFocus::Confirm => PassphraseFocus::Passphrase,
        }
    }
}

#[derive(Clone, Debug, Default, PartialEq, Eq)]
pub enum PassphraseStage {
    #[default]
    Editing,
    /// The passphrase looks weak; waiting for y/n.
    WeakWarning,
    Encrypting,
    /// Saved at the given path.
    Saved(String),
    Failed(String),
}

pub enum PassphraseStageView {
    Editing,
    WeakWarning,
    Encrypting,
    Saved(Seq<char>),
    Failed(Seq<char>),
}

impl View for PassphraseStage {
    type V = PassphraseStageView;

    open spec fn view(&self) -> PassphraseStageView {
        match self {
            PassphraseStage::Editing => PassphraseStageView::Editing,
            PassphraseStage::WeakWarning => PassphraseStageView::WeakWarning,
            PassphraseStage::Encrypting => PassphraseStageView::Encrypting,
            PassphraseStage::Saved(s) => PassphraseStageView::Saved(s@),
            PassphraseStage::Failed(s) => PassphraseStageView::Failed(s@),
        }
    }
}

/// Whether the account sub-flow uploads the local container or
/// downloads one.
#[derive(Clone, Copy, Debug, Default, PartialEq, Eq, Structural)]
pub enum PushFlowMode {
    #[default]
    Push,
    SignIn,
}

#[derive(Clone, Debug, Default, PartialEq, Eq)]
pub enum PushStage {
    #[default]
    AccountForm,
    AccountSending,
    TotpForm,
    TotpSending,
    PushForm,
    PushFetching,
    PushSending,
    Done,
    Failed(String),
}

pub enum PushStageView {
    AccountForm,
    AccountSending,
    TotpForm,
    TotpSending,
    PushForm,
    PushFetching,
    PushSending,
    Done,
    Failed(Seq<char>),
}

impl View for PushStage {
    type V = PushStageView;

    open spec fn view(&self) -> PushStageView {
        match self {
            PushStage::AccountForm => PushStageView::AccountForm,
            PushStage::AccountSending => PushStageView::AccountSending,
            PushStage::TotpForm => PushStageView::TotpForm,
            PushStage::TotpSending => PushStageView::TotpSending,
            PushStage::PushForm => PushStageView::PushForm,
            PushStage::PushFetching => PushStageView::PushFetching,
            PushStage::PushSending => PushStageView::PushSending,
            PushStage::Done => PushStageView::Done,
            PushStage::Failed(s) => PushStageView::Failed(s@),
        }
    }
}

pub open spec fn push_stage_name(s: PushStageView) -> Seq<char> {
    match s {
        PushStageView::AccountForm => "AccountForm"@,
        PushStageView::AccountSending => "AccountSending"@,
        PushStageView::TotpForm => "TotpForm"@,
        PushStageView::TotpSending => "TotpSending"@,
        PushStageView::PushForm => "PushForm"@,
        PushStageView::PushFetching => "PushFetching"@,
        PushStageView::PushSending => "PushSending"@,
        PushStageView::Done => "Done"@,
        PushStageView::Failed(_) => "Failed"@,
    }
}

impl PushStage {
    pub fn name(&self) -> (s: &'static str)
        ensures
            s@ == push_stage_name(self@),
    {
        match self {
            PushStage::AccountForm => "AccountForm",
            PushStage::AccountSending => "AccountSending",
            PushStage::TotpForm => "TotpForm",
            PushStage::TotpSending => "TotpSending",
            PushStage::PushForm => "PushForm",
            PushStage::PushFetching => "PushFetching",
            PushStage::PushSending => "PushSending",
            PushStage::Done => "Done",
            PushStage::Failed(_) => "Failed",
        }
    }
}

/// State of the account / two-factor / alias sub-flow.
pub struct PushFlowState {
    pub stage: PushStage,
    pub mode: PushFlowMode,
    /// Pending two-factor challenge.
    pub login_challenge: Option<String>,
    /// Bearer token of the active session.
    pub session_token: Option<String>,
    /// Aliases the account already owns on the server.
    pub remote_aliases: Vec<String>,
    /// Highlighted alias; `None` while typing a new one.
    pub picker_index: Option<usize>,
    pub pushed_alias: Option<String>,
    pub pushed_size: u64,
    pub pushed_version: u64,
}

pub struct PushFlowView {
    pub stage: PushStageView,
    pub mode: PushFlowMode,
    pub login_challenge: Option<Seq<char>>,
    pub session_token: Option<Seq<char>>,
    pub remote_aliases: Seq<Seq<char>>,
    pub picker_index: Option<usize>,
    pub pushed_alias: Option<Seq<char>>,
    pub pushed_size: u64,
    pub pushed_version: u64,
}

pub open spec fn strings_view(v: Seq<String>) -> Seq<Seq<char>> {
    v.map_values(|s: String| s@)
}

impl View for PushFlowState {
    type V = PushFlowView;

    open spec fn view(&self) -> PushFlowView {
        PushFlowView {
            stage: self.stage@,
            mode: self.mode,
            login_challenge: opt_str_view(self.login_challenge),
            session_token: opt_str_view(self.session_token),
            remote_aliases: strings_view(self.remote_aliases@),
            picker_index: self.picker_index,
            pushed_alias: opt_str_view(self.pushed_alias),
            pushed_size: self.pushed_size,
            pushed_version: self.pushed_version,
        }
    }
}

pub open spec fn fresh_push_flow() -> PushFlowView {
    PushFlowView {
        stage: PushStageView::AccountForm,
        mode: PushFlowMode::Push,
        login_challenge: None,
        session_token: None,
        remote_aliases: Seq::empty(),
        picker_index: None,
        pushed_alias: None,
        pushed_size: 0,
        pushed_version: 0,
    }
}

impl Default for PushFlowState {
    fn default() -> (s: Self)
        ensures
            s@ == fresh_push_flow(),
    {
        let s = PushFlowState {
            stage: PushStage::AccountForm,
            mode: PushFlowMode::Push,
            login_challenge: None,
            session_token: None,
            remote_aliases: Vec::new(),
            picker_index: None,
            pushed_alias: None,
            pushed_size: 0,
            pushed_version: 0,
        };
        assert(strings_view(s.remote_aliases@) =~= Seq::<Seq<char>>::empty());
        s
    }
}

impl PushFlowState {
    /// Debug text that shows the stage but neither token nor challenge.
    pub fn redacted_debug(&self) -> (s: String)
        ensures
            s@ == "PushFlowState { stage: "@ + push_stage_name(self@.stage)
                + ", <token+challenge redacted> }"@,
    {
        let mut s = from_str("PushFlowState { stage: ");
        s.append(self.stage.name());
        s.append(", <token+challenge redacted> }");
        s
    }
}

#[derive(Clone, Copy, Debug, Default, PartialEq, Eq, Structural)]
pub enum AccountFocus {
    #[default]
    Email,
    Password,
}

impl AccountFocus {
    pub open spec fn next_spec(self) -> AccountFocus {
        match self {
            AccountFocus::Email => AccountFocus::Password,
            AccountFocus::Password => AccountFocus::Email,
        }
    }

    pub fn next(self) -> (f: Self)
        ensures
            f == self.next_spec(),
    {
        match self {
            AccountFocus::Email => AccountFocus::Password,
            AccountFocus::Password => AccountFocus::Email,
        }
    }
}

/// How the config directory is shown: relative to the home directory
/// with `~/` when it lies inside it, as given otherwise, always with a
/// trailing `/`; the Linux default when no directory is known.
pub open spec fn config_dir_display_spec(config_dir: Option<Seq<char>>, home: Seq<char>) -> Seq<char> {
    match config_dir {
        None => "~/.config/zz-drop/"@,
        Some(dir) => {
            let path = dir + "/zz-drop"@;
            if home.len() > 0 && path.len() > home.len() + 1 && path.subrange(0, home.len() as int)
                == home && path[home.len() as int] == '/' {
                "~/"@ + path.subrange(home.len() as int + 1, path.len() as int) + "/"@
            } else {
                path + "/"@
            }
        },
    }
}

/// Formats the config directory for the welcome footnote from the
/// platform's config directory and home directory.
pub fn config_dir_display(config_dir: Option<&str>, home: &str) -> (s: String)
    ensures
        s@ == config_dir_display_spec(
            match config_dir {
                Some(d) => Some(d@),
                None => None,
            },
            home@,
        ),
{
    match config_dir {
        None => from_str("~/.config/zz-drop/"),
        Some(dir) => {
            let mut path = from_str(dir);
            path.append("/zz-drop");
            let hl = char_count(home);
            let pl = char_count(path.as_str());
            let inside = hl > 0 && pl > hl && pl - hl > 1 && str_eq(path.as_str().substring_char(0, hl), home)
                && char_at(path.as_str(), hl) == '/';
            if inside {
                let mut out = from_str("~/");
                out.append(path.as_str().substring_char(hl + 1, pl));
                out.append("/");
                out
            } else {
                path.append("/");
                path
            }
        },
    }
}

#[derive(Clone, Copy, Debug, PartialEq, Eq, Structural)]
pub enum CollisionChoice {
    Rename,
    Overwrite,
    Fail,
}

impl CollisionChoice {
    pub open spec fn policy_spec(self) -> CollisionPolicy {
        match self {
            CollisionChoice::Rename => CollisionPolicy::Rename,
            CollisionChoice::Overwrite => CollisionPolicy::Overwrite,
            CollisionChoice::Fail => CollisionPolicy::Fail,
        }
    }

    pub open spec fn next_spec(self) -> CollisionChoice {
        match self {
            CollisionChoice::Rename => CollisionChoice::Overwrite,
            CollisionChoice::Overwrite => CollisionChoice::Fail,
            CollisionChoice::Fail => CollisionChoice::Rename,
        }
    }

    pub open spec fn previous_spec(self) -> CollisionChoice {
        match self {
            CollisionChoice::Rename => CollisionChoice::Fail,
            CollisionChoice::Overwrite => CollisionChoice::Rename,
            CollisionChoice::Fail => CollisionChoice::Overwrite,
        }
    }

    pub fn from_policy(p: CollisionPolicy) -> (c: Self)
        ensures
            c.policy_spec() == p,
    {
        match p {
            CollisionPolicy::Rename => CollisionChoice::Rename,
            CollisionPolicy::Overwrite => CollisionChoice::Overwrite,
            CollisionPolicy::Fail => CollisionChoice::Fail,
        }
    }

    pub fn to_policy(self) -> (p: CollisionPolicy)
        ensures
            p == self.policy_spec(),
    {
        match self {
            CollisionChoice::Rename => CollisionPolicy::Rename,
            CollisionChoice::Overwrite => CollisionPolicy::Overwrite,
            CollisionChoice::Fail => CollisionPolicy::Fail,
        }
    }

    pub fn next(self) -> (c: Self)
        ensures
            c == self.next_spec(),
    {
        match self {
            CollisionChoice::Rename => CollisionChoice::Overwrite,
            CollisionChoice::Overwrite => CollisionChoice::Fail,
            CollisionChoice::Fail => CollisionChoice::Rename,
        }
    }

    pub fn previous(self) -> (c: Self)
        ensures
            c == self.previous_spec(),
    {
        match self {
            CollisionChoice::Rename => CollisionChoice::Fail,
            CollisionChoice::Overwrite => CollisionChoice::Rename,
            CollisionChoice::Fail => CollisionChoice::Overwrite,
        }
    }

    pub fn label(self) -> (s: &'static str)
        ensures
            s@ == match self {
                CollisionChoice::Rename => "rename — keep both files (foo (1).md)"@,
                CollisionChoice::Overwrite => "overwrite — replace remote file silently"@,
                CollisionChoice::Fail => "fail — refuse to overwrite"@,
            },
    {
        match self {
            CollisionChoice::Rename => "rename — keep both files (foo (1).md)",
            CollisionChoice::Overwrite => "overwrite — replace remote file silently",
            CollisionChoice::Fail => "fail — refuse to overwrite",
        }
    }
}

/// Converting a choice to a policy and back gives the same choice.
pub proof fn law_collision_choice_round_trip(c: CollisionChoice)
    ensures
        forall|d: CollisionChoice| d.policy_spec() == c.policy_spec() ==> d == c,
{
}

/// `next` and `previous` undo each other.
pub proof fn law_collision_cycle_inverse(c: CollisionChoice)
    ensures
        c.next_spec().previous_spec() == c,
        c.previous_spec().next_spec() == c,
{
}

} // verus!
