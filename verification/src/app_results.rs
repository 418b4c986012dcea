//! How the outcome of each request the driver carried out changes the
//! state: saving, the account server, the upload probe and the
//! Nextcloud login flow.

use vstd::prelude::*;
use crate::app::{
    App, ProfileSource, PushedSummary, enter_push_flow, entered_push_flow, route_after_login,
    routed_after_login,
};
use crate::input::{TextInput, empty_input, empty_masked_input};
use crate::screens::Screen;
use crate::wizard::{
    AuthKind, LoginFlowStage, LoginFlowState, ManageStage, PassphraseStage, PassphraseStageView,
    ProbeProgress, ProbeStepStatus, PushFlowMode, PushFlowState, PushFlowView, PushStage,
    TestOutcome, WizardMode, WizardState, WizardStateView, fresh_push_flow, opt_str_view,
};

verus! {

/// The container was written at `path`: the wizard parks on the saved
/// stage, the local file exists, and a cached unlock of the local
/// container (now stale) is dropped.
#[verifier::opaque]
pub open spec fn save_marked(a: App, m: App, path: Seq<char>) -> bool {
    let stale = a.cached_source == Some(ProfileSource::Local);
    &&& opt_str_view(m.saved_path) == Some(path)
    &&& m.passphrase_stage@ == PassphraseStageView::Saved(path)
    &&& m == (App {
        saved_path: m.saved_path,
        passphrase_stage: m.passphrase_stage,
        local_exists: true,
        unlocked_profile: if stale {
            None
        } else {
            a.unlocked_profile
        },
        cached_source: if stale {
            None
        } else {
            a.cached_source
        },
        ..a
    })
}

/// After a save: when the container is to be pushed, the account
/// sub-flow is entered with no way back.
pub open spec fn save_done(a: App, b: App, path: Seq<char>) -> bool {
    if a.wizard_mode == WizardMode::CreateRemote {
        exists|m: App| save_marked(a, m, path) && entered_push_flow(m, b, PushFlowMode::Push, None)
    } else {
        save_marked(a, b, path)
    }
}

fn mark_saved(a: App, path: String) -> (b: App)
    ensures
        save_marked(a, b, path@),
{
    proof {
        reveal(save_marked);
    }
    let stale = a.cached_source == Some(ProfileSource::Local);
    let saved = path.clone();
    if stale {
        App {
            saved_path: Some(saved),
            passphrase_stage: PassphraseStage::Saved(path),
            local_exists: true,
            unlocked_profile: None,
            cached_source: None,
            ..a
        }
    } else {
        App { saved_path: Some(saved), passphrase_stage: PassphraseStage::Saved(path), local_exists: true, ..a }
    }
}

fn saved_then_pushed(a: App, path: String) -> (b: App)
    ensures
        exists|m: App| save_marked(a, m, path@) && entered_push_flow(m, b, PushFlowMode::Push, None),
{
    let m = mark_saved(a, path);
    let ghost gm = m;
    let b = enter_push_flow(m, PushFlowMode::Push, None);
    assert(save_marked(a, gm, path@) && entered_push_flow(gm, b, PushFlowMode::Push, None));
    b
}

/// A login (or two-factor answer) gave a session token: it is kept for
/// the session and the flow moves on.
#[verifier::opaque]
pub open spec fn session_kept(a: App, m: App, token: Seq<char>) -> bool {
    &&& opt_str_view(m.cached_session_token) == Some(token)
    &&& m.push_flow@ == (PushFlowView { session_token: Some(token), ..a.push_flow@ })
    &&& m == (App { cached_session_token: m.cached_session_token, push_flow: m.push_flow, ..a })
}

pub open spec fn session_applied(a: App, b: App, token: Seq<char>) -> bool {
    exists|m: App| session_kept(a, m, token) && routed_after_login(m, b)
}

fn keep_session(a: App, token: String) -> (b: App)
    ensures
        session_kept(a, b, token@),
{
    proof {
        reveal(session_kept);
    }
    let t2 = token.clone();
    App {
        cached_session_token: Some(token),
        push_flow: PushFlowState { session_token: Some(t2), ..a.push_flow },
        ..a
    }
}

fn apply_session(a: App, token: String) -> (b: App)
    ensures
        session_applied(a, b, token@),
{
    let ghost t = token@;
    let m = keep_session(a, token);
    let ghost gm = m;
    let b = route_after_login(m);
    assert(session_kept(a, gm, t) && routed_after_login(gm, b));
    b
}

/// The alias picker's list: the first alias highlighted, if any.
pub open spec fn aliases_shown(a: App, b: App, aliases: Vec<String>) -> bool {
    b == (App {
        push_flow: PushFlowState {
            remote_aliases: aliases,
            picker_index: if aliases@.len() == 0 {
                None
            } else {
                Some(0usize)
            },
            stage: PushStage::PushForm,
            ..a.push_flow
        },
        ..a
    })
}

/// The server took the upload of `alias`.
#[verifier::opaque]
pub open spec fn push_recorded(a: App, b: App, alias: Seq<char>, size: u64, version: u64) -> bool {
    &&& b.push_flow@ == (PushFlowView {
        pushed_alias: Some(alias),
        pushed_size: size,
        pushed_version: version,
        stage: crate::wizard::PushStageView::Done,
        ..a.push_flow@
    })
    &&& b.pushed_summary matches Some(s) && s@ == (crate::app::PushedSummaryView {
        alias: alias,
        blob_size: size,
        blob_version: version,
    })
    &&& b == (App { push_flow: b.push_flow, pushed_summary: b.pushed_summary, ..a })
}

fn record_push(a: App, alias: String, size: u64, version: u64) -> (b: App)
    ensures
        push_recorded(a, b, alias@, size, version),
{
    proof {
        reveal(push_recorded);
    }
    let summary = PushedSummary { alias: alias.clone(), blob_size: size, blob_version: version };
    App {
        push_flow: PushFlowState {
            pushed_alias: Some(alias),
            pushed_size: size,
            pushed_version: version,
            stage: PushStage::Done,
            ..a.push_flow
        },
        pushed_summary: Some(summary),
        ..a
    }
}

/// The downloaded container now sits in the server-synced slot: its
/// passphrase prompt opens, and a stale cached unlock of that slot and
/// the whole account sub-flow are cleared.
pub open spec fn signin_recorded(a: App, b: App, alias: Seq<char>) -> bool {
    let stale = a.cached_source == Some(ProfileSource::Remote);
    &&& b.manage_passphrase_input@ == empty_masked_input()
    &&& b.pushed_summary matches Some(s) && s@ == (crate::app::PushedSummaryView {
        alias: alias,
        blob_size: 0,
        blob_version: 0,
    })
    &&& b.push_flow@ == fresh_push_flow()
    &&& b.account_email_input@ == empty_input()
    &&& b.account_password_input@ == empty_masked_input()
    &&& b.totp_code_input@ == empty_input()
    &&& b.push_alias_input@ == empty_input()
    &&& b == (App {
        remote_exists: true,
        unlock_source: ProfileSource::Remote,
        unlocked_profile: if stale {
            None
        } else {
            a.unlocked_profile
        },
        cached_source: if stale {
            None
        } else {
            a.cached_source
        },
        manage_passphrase_input: b.manage_passphrase_input,
        manage_unlock_error: None,
        manage_stage: ManageStage::Locked,
        pushed_summary: b.pushed_summary,
        push_flow: b.push_flow,
        account_email_input: b.account_email_input,
        account_password_input: b.account_password_input,
        account_validation_error: None,
        totp_code_input: b.totp_code_input,
        push_alias_input: b.push_alias_input,
        push_back: None,
        screen: Screen::ProfileUnlock,
        ..a
    })
}

fn record_signin(a: App, alias: String) -> (b: App)
    ensures
        signin_recorded(a, b, alias@),
{
    let stale = a.cached_source == Some(ProfileSource::Remote);
    let summary = PushedSummary { alias, blob_size: 0, blob_version: 0 };
    if stale {
        App {
            remote_exists: true,
            unlock_source: ProfileSource::Remote,
            unlocked_profile: None,
            cached_source: None,
            manage_passphrase_input: TextInput::masked(),
            manage_unlock_error: None,
            manage_stage: ManageStage::Locked,
            pushed_summary: Some(summary),
            push_flow: PushFlowState::default(),
            account_email_input: TextInput::new(),
            account_password_input: TextInput::masked(),
            account_validation_error: None,
            totp_code_input: TextInput::new(),
            push_alias_input: TextInput::new(),
            push_back: None,
            screen: Screen::ProfileUnlock,
            ..a
        }
    } else {
        App {
            remote_exists: true,
            unlock_source: ProfileSource::Remote,
            manage_passphrase_input: TextInput::masked(),
            manage_unlock_error: None,
            manage_stage: ManageStage::Locked,
            pushed_summary: Some(summary),
            push_flow: PushFlowState::default(),
            account_email_input: TextInput::new(),
            account_password_input: TextInput::masked(),
            account_validation_error: None,
            totp_code_input: TextInput::new(),
            push_alias_input: TextInput::new(),
            push_back: None,
            screen: Screen::ProfileUnlock,
            ..a
        }
    }
}

/// Progress when a probe starts: the first stage runs, the others wait.
pub open spec fn probe_started_progress() -> ProbeProgress {
    ProbeProgress {
        ensure: ProbeStepStatus::Busy,
        marker: ProbeStepStatus::Pending,
        upload: ProbeStepStatus::Pending,
        cleanup: ProbeStepStatus::Pending,
    }
}

/// The probe's progress becomes `p` and its outcome `o`; the probe runs
/// on when `running`.
pub open spec fn probe_updated(
    a: App,
    b: App,
    p: ProbeProgress,
    o: Option<TestOutcome>,
    running: bool,
) -> bool {
    b == (App {
        state: WizardState { probe_progress: p, last_test_outcome: o, ..a.state },
        test_running: running,
        ..a
    })
}

/// A stage failed for `reason`: the stages after it are skipped, the
/// probe stops, and its outcome is that failure.
pub open spec fn probe_failed_at(a: App, b: App, p: ProbeProgress, reason: String) -> bool {
    probe_updated(a, b, p, Some(TestOutcome::Failed(reason)), false)
}

impl App {
    /// The container was written at `path`.
    pub fn apply_save_done(&mut self, path: String)
        ensures
            save_done(*old(self), *final(self), path@),
    {
        let a = self.take_out();
        *self = if a.wizard_mode == WizardMode::CreateRemote {
            saved_then_pushed(a, path)
        } else {
            mark_saved(a, path)
        };
    }

    pub fn apply_save_failed(&mut self, reason: String)
        ensures
            *final(self) == (App { passphrase_stage: PassphraseStage::Failed(reason), ..*old(self) }),
    {
        let a = self.take_out();
        *self = App { passphrase_stage: PassphraseStage::Failed(reason), ..a };
    }

    /// The login gave a session token.
    pub fn apply_login_session(&mut self, token: String)
        ensures
            session_applied(*old(self), *final(self), token@),
    {
        let a = self.take_out();
        *self = apply_session(a, token);
    }

    /// The server wants a two-factor code for `challenge`.
    pub fn apply_login_totp_required(&mut self, challenge: String)
        ensures
            final(self).totp_code_input@ == empty_input(),
            *final(self) == (App {
                push_flow: PushFlowState {
                    login_challenge: Some(challenge),
                    stage: PushStage::TotpForm,
                    ..old(self).push_flow
                },
                totp_code_input: final(self).totp_code_input,
                screen: Screen::LoginTotp,
                ..*old(self)
            }),
    {
        let a = self.take_out();
        *self = App {
            push_flow: PushFlowState {
                login_challenge: Some(challenge),
                stage: PushStage::TotpForm,
                ..a.push_flow
            },
            totp_code_input: TextInput::new(),
            screen: Screen::LoginTotp,
            ..a
        };
    }

    pub fn apply_login_failed(&mut self, reason: String)
        ensures
            *final(self) == (App {
                push_flow: PushFlowState { stage: PushStage::Failed(reason), ..old(self).push_flow },
                ..*old(self)
            }),
    {
        let a = self.take_out();
        *self = App { push_flow: PushFlowState { stage: PushStage::Failed(reason), ..a.push_flow }, ..a };
    }

    /// The two-factor answer gave a session token.
    pub fn apply_totp_session(&mut self, token: String)
        ensures
            session_applied(*old(self), *final(self), token@),
    {
        let a = self.take_out();
        *self = apply_session(a, token);
    }

    pub fn apply_totp_failed(&mut self, reason: String)
        ensures
            *final(self) == (App {
                push_flow: PushFlowState { stage: PushStage::Failed(reason), ..old(self).push_flow },
                ..*old(self)
            }),
    {
        let a = self.take_out();
        *self = App { push_flow: PushFlowState { stage: PushStage::Failed(reason), ..a.push_flow }, ..a };
    }

    /// The account's aliases arrived.
    pub fn apply_aliases_loaded(&mut self, aliases: Vec<String>)
        ensures
            aliases_shown(*old(self), *final(self), aliases),
    {
        let a = self.take_out();
        let pick = if aliases.len() == 0 {
            None
        } else {
            Some(0usize)
        };
        *self = App {
            push_flow: PushFlowState {
                remote_aliases: aliases,
                picker_index: pick,
                stage: PushStage::PushForm,
                ..a.push_flow
            },
            ..a
        };
    }

    /// The server took the upload. Returns whether the driver should
    /// now copy the local container into the server-synced slot (a
    /// container created to be pushed, with both paths known); after a
    /// successful copy the driver reports it with `apply_mirror_done`.
    pub fn apply_push_done(&mut self, alias: String, size: u64, version: u64) -> (mirror: bool)
        ensures
            push_recorded(*old(self), *final(self), alias@, size, version),
            mirror == (old(self).wizard_mode == WizardMode::CreateRemote
                && old(self).profile_local_path is Some && old(self).profile_remote_path is Some),
    {
        let a = self.take_out();
        let mirror = a.wizard_mode == WizardMode::CreateRemote && a.profile_local_path.is_some()
            && a.profile_remote_path.is_some();
        *self = record_push(a, alias, size, version);
        mirror
    }

    /// The local container was copied into the server-synced slot:
    /// that container now exists, nothing else changes.
    pub fn apply_mirror_done(&mut self)
        ensures
            *final(self) == (App { remote_exists: true, ..*old(self) }),
    {
        let a = self.take_out();
        *self = App { remote_exists: true, ..a };
    }

    pub fn apply_push_failed(&mut self, reason: String)
        ensures
            *final(self) == (App {
                push_flow: PushFlowState { stage: PushStage::Failed(reason), ..old(self).push_flow },
                ..*old(self)
            }),
    {
        let a = self.take_out();
        *self = App { push_flow: PushFlowState { stage: PushStage::Failed(reason), ..a.push_flow }, ..a };
    }

    /// The container of `alias` was downloaded into the server-synced
    /// slot.
    pub fn apply_signin_done(&mut self, alias: String)
        ensures
            signin_recorded(*old(self), *final(self), alias@),
    {
        let a = self.take_out();
        *self = record_signin(a, alias);
    }

    /// A probe starts.
    pub fn start_probe(&mut self)
        ensures
            probe_updated(*old(self), *final(self), probe_started_progress(), None, old(self).test_running),
    {
        let a = self.take_out();
        let running = a.test_running;
        let p = ProbeProgress {
            ensure: ProbeStepStatus::Busy,
            marker: ProbeStepStatus::Pending,
            upload: ProbeStepStatus::Pending,
            cleanup: ProbeStepStatus::Pending,
        };
        *self = App {
            state: WizardState { probe_progress: p, last_test_outcome: None, ..a.state },
            test_running: running,
            ..a
        };
    }

    /// The target folder exists; the marker file is next.
    pub fn mark_probe_ensure_ok(&mut self)
        ensures
            probe_updated(
                *old(self),
                *final(self),
                ProbeProgress {
                    ensure: ProbeStepStatus::Done,
                    marker: ProbeStepStatus::Busy,
                    ..old(self).state.probe_progress
                },
                old(self).state.last_test_outcome,
                old(self).test_running,
            ),
    {
        let a = self.take_out();
        let running = a.test_running;
        let p = ProbeProgress {
            ensure: ProbeStepStatus::Done,
            marker: ProbeStepStatus::Busy,
            ..a.state.probe_progress
        };
        *self = App { state: WizardState { probe_progress: p, ..a.state }, test_running: running, ..a };
    }

    /// The folder could not be made: everything after it is skipped.
    pub fn fail_probe_ensure(&mut self, reason: String)
        ensures
            probe_failed_at(
                *old(self),
                *final(self),
                ProbeProgress {
                    ensure: ProbeStepStatus::Failed,
                    marker: ProbeStepStatus::Skip,
                    upload: ProbeStepStatus::Skip,
                    cleanup: ProbeStepStatus::Skip,
                },
                reason,
            ),
    {
        let a = self.take_out();
        let p = ProbeProgress {
            ensure: ProbeStepStatus::Failed,
            marker: ProbeStepStatus::Skip,
            upload: ProbeStepStatus::Skip,
            cleanup: ProbeStepStatus::Skip,
        };
        *self = App {
            state: WizardState {
                probe_progress: p,
                last_test_outcome: Some(TestOutcome::Failed(reason)),
                ..a.state
            },
            test_running: false,
            ..a
        };
    }

    /// The marker file is written; the upload is next.
    pub fn mark_probe_marker_ok(&mut self)
        ensures
            probe_updated(
                *old(self),
                *final(self),
                ProbeProgress {
                    marker: ProbeStepStatus::Done,
                    upload: ProbeStepStatus::Busy,
                    ..old(self).state.probe_progress
                },
                old(self).state.last_test_outcome,
                old(self).test_running,
            ),
    {
        let a = self.take_out();
        let running = a.test_running;
        let p = ProbeProgress {
            marker: ProbeStepStatus::Done,
            upload: ProbeStepStatus::Busy,
            ..a.state.probe_progress
        };
        *self = App { state: WizardState { probe_progress: p, ..a.state }, test_running: running, ..a };
    }

    /// The marker file failed: upload and cleanup are skipped.
    pub fn fail_probe_marker(&mut self, reason: String)
        ensures
            probe_failed_at(
                *old(self),
                *final(self),
                ProbeProgress {
                    marker: ProbeStepStatus::Failed,
                    upload: ProbeStepStatus::Skip,
                    cleanup: ProbeStepStatus::Skip,
                    ..old(self).state.probe_progress
                },
                reason,
            ),
    {
        let a = self.take_out();
        let p = ProbeProgress {
            marker: ProbeStepStatus::Failed,
            upload: ProbeStepStatus::Skip,
            cleanup: ProbeStepStatus::Skip,
            ..a.state.probe_progress
        };
        *self = App {
            state: WizardState {
                probe_progress: p,
                last_test_outcome: Some(TestOutcome::Failed(reason)),
                ..a.state
            },
            test_running: false,
            ..a
        };
    }

    /// The test upload went through; the cleanup is next.
    pub fn mark_probe_upload_ok(&mut self)
        ensures
            probe_updated(
                *old(self),
                *final(self),
                ProbeProgress {
                    upload: ProbeStepStatus::Done,
                    cleanup: ProbeStepStatus::Busy,
                    ..old(self).state.probe_progress
                },
                old(self).state.last_test_outcome,
                old(self).test_running,
            ),
    {
        let a = self.take_out();
        let running = a.test_running;
        let p = ProbeProgress {
            upload: ProbeStepStatus::Done,
            cleanup: ProbeStepStatus::Busy,
            ..a.state.probe_progress
        };
        *self = App { state: WizardState { probe_progress: p, ..a.state }, test_running: running, ..a };
    }

    /// The test upload failed: the cleanup is skipped.
    pub fn fail_probe_upload(&mut self, reason: String)
        ensures
            probe_failed_at(
                *old(self),
                *final(self),
                ProbeProgress {
                    upload: ProbeStepStatus::Failed,
                    cleanup: ProbeStepStatus::Skip,
                    ..old(self).state.probe_progress
                },
                reason,
            ),
    {
        let a = self.take_out();
        let p = ProbeProgress {
            upload: ProbeStepStatus::Failed,
            cleanup: ProbeStepStatus::Skip,
            ..a.state.probe_progress
        };
        *self = App {
            state: WizardState {
                probe_progress: p,
                last_test_outcome: Some(TestOutcome::Failed(reason)),
                ..a.state
            },
            test_running: false,
            ..a
        };
    }

    /// The cleanup went through: the probe passed.
    pub fn mark_probe_cleanup_ok(&mut self)
        ensures
            probe_updated(
                *old(self),
                *final(self),
                ProbeProgress { cleanup: ProbeStepStatus::Done, ..old(self).state.probe_progress },
                Some(TestOutcome::Passed),
                false,
            ),
    {
        let a = self.take_out();
        let p = ProbeProgress { cleanup: ProbeStepStatus::Done, ..a.state.probe_progress };
        *self = App {
            state: WizardState {
                probe_progress: p,
                last_test_outcome: Some(TestOutcome::Passed),
                ..a.state
            },
            test_running: false,
            ..a
        };
    }

    /// The cleanup failed: the probe failed.
    pub fn fail_probe_cleanup(&mut self, reason: String)
        ensures
            probe_failed_at(
                *old(self),
                *final(self),
                ProbeProgress { cleanup: ProbeStepStatus::Failed, ..old(self).state.probe_progress },
                reason,
            ),
    {
        let a = self.take_out();
        let p = ProbeProgress { cleanup: ProbeStepStatus::Failed, ..a.state.probe_progress };
        *self = App {
            state: WizardState {
                probe_progress: p,
                last_test_outcome: Some(TestOutcome::Failed(reason)),
                ..a.state
            },
            test_running: false,
            ..a
        };
    }

    /// Records a whole probe's outcome at once: all stages done for a
    /// pass, the upload failed for a failure.
    pub fn record_test_outcome(&mut self, outcome: TestOutcome)
        ensures
            probe_updated(
                *old(self),
                *final(self),
                match outcome {
                    TestOutcome::Passed => ProbeProgress {
                        ensure: ProbeStepStatus::Done,
                        marker: ProbeStepStatus::Done,
                        upload: ProbeStepStatus::Done,
                        cleanup: ProbeStepStatus::Done,
                    },
                    TestOutcome::Failed(_) => ProbeProgress {
                        upload: ProbeStepStatus::Failed,
                        ..old(self).state.probe_progress
                    },
                },
                Some(outcome),
                false,
            ),
    {
        let a = self.take_out();
        let p = match &outcome {
            TestOutcome::Passed => ProbeProgress {
                ensure: ProbeStepStatus::Done,
                marker: ProbeStepStatus::Done,
                upload: ProbeStepStatus::Done,
                cleanup: ProbeStepStatus::Done,
            },
            TestOutcome::Failed(_) => ProbeProgress {
                upload: ProbeStepStatus::Failed,
                ..a.state.probe_progress
            },
        };
        *self = App {
            state: WizardState { probe_progress: p, last_test_outcome: Some(outcome), ..a.state },
            test_running: false,
            ..a
        };
    }

    /// The login flow started: poll `token` at `endpoint` while the
    /// operator opens `login_url`.
    pub fn apply_login_flow_init(&mut self, login_url: String, token: String, endpoint: String)
        ensures
            *final(self) == (App {
                login_flow: LoginFlowState {
                    login_url: login_url,
                    poll_token: token,
                    poll_endpoint: endpoint,
                    stage: LoginFlowStage::Polling,
                    ..old(self).login_flow
                },
                ..*old(self)
            }),
    {
        let a = self.take_out();
        *self = App {
            login_flow: LoginFlowState {
                login_url: login_url,
                poll_token: token,
                poll_endpoint: endpoint,
                stage: LoginFlowStage::Polling,
                ..a.login_flow
            },
            ..a
        };
    }

    pub fn apply_login_flow_init_failed(&mut self, reason: String)
        ensures
            *final(self) == (App {
                login_flow: LoginFlowState { stage: LoginFlowStage::Failed(reason), ..old(self).login_flow },
                ..*old(self)
            }),
    {
        let a = self.take_out();
        *self = App { login_flow: LoginFlowState { stage: LoginFlowStage::Failed(reason), ..a.login_flow }, ..a };
    }

    /// The login flow granted `app_password` to `login_name`: both go
    /// into the wizard and its fields.
    pub fn apply_login_flow_done(&mut self, login_name: String, app_password: String)
        ensures
            final(self).username_input@ == old(self).username_input@.with_value(login_name@),
            final(self).secret_input@ == old(self).secret_input@.with_value(app_password@),
            final(self).state@ == (WizardStateView {
                username: login_name@,
                auth_secret: app_password@,
                auth_kind: AuthKind::LoginFlow,
                ..old(self).state@
            }),
            *final(self) == (App {
                login_flow: LoginFlowState { stage: LoginFlowStage::Done, ..old(self).login_flow },
                username_input: final(self).username_input,
                secret_input: final(self).secret_input,
                state: final(self).state,
                ..*old(self)
            }),
    {
        let a = self.take_out();
        let mut u = a.username_input;
        u.set_value(login_name.as_str());
        let mut s = a.secret_input;
        s.set_value(app_password.as_str());
        *self = App {
            login_flow: LoginFlowState { stage: LoginFlowStage::Done, ..a.login_flow },
            username_input: u,
            secret_input: s,
            state: WizardState {
                username: login_name,
                auth_secret: app_password,
                auth_kind: AuthKind::LoginFlow,
                ..a.state
            },
            ..a
        };
    }

    pub fn apply_login_flow_failed(&mut self, reason: String)
        ensures
            *final(self) == (App {
                login_flow: LoginFlowState { stage: LoginFlowStage::Failed(reason), ..old(self).login_flow },
                ..*old(self)
            }),
    {
        let a = self.take_out();
        *self = App { login_flow: LoginFlowState { stage: LoginFlowStage::Failed(reason), ..a.login_flow }, ..a };
    }
}

} // verus!
