//! The answers the driver brings back from the disk and the network,
//! and what each answer does to the state: the decisions of the main
//! loop between two outside calls.

use vstd::prelude::*;
use crate::app::App;
use crate::app_results::{probe_failed_at, probe_updated, push_recorded, save_done, session_applied};
use crate::input::empty_input;
use crate::screens::Screen;
use crate::wizard::{
    AuthKind, LoginFlowStage, LoginFlowState, PassphraseStage, ProbeProgress, ProbeStepStatus,
    PushFlowState, PushStage, TestOutcome, WizardMode, WizardStateView,
};

verus! {

/// What the account server answered to a login.
pub enum PushLoginOutcome {
    /// A session token.
    Session(String),
    /// A challenge to answer with a two-factor code.
    TotpRequired(String),
}

/// What the server reports after taking an upload.
pub struct PushSummary {
    pub alias: String,
    pub blob_size: u64,
    pub blob_version: u64,
}

/// The answer to starting a Nextcloud login flow.
pub enum LoginFlowInitOutcome {
    Started { login_url: String, token: String, endpoint: String },
    Failed(String),
}

/// The answer to one poll of a Nextcloud login flow.
pub enum LoginFlowPollOutcome {
    Pending,
    Done { login_name: String, app_password: String },
    Failed(String),
}

/// The answer to the probe's last stage, deleting the test file.
pub enum ProbeCleanupOutcome {
    Cleaned,
    Failed(String),
}

/// The answer to writing the encrypted container.
pub enum SaveProfileOutcome {
    Saved { path: String },
    Failed(String),
}

/// The account sub-flow failed for `reason`.
pub open spec fn push_failed_with(a: App, b: App, reason: String) -> bool {
    b == (App { push_flow: PushFlowState { stage: PushStage::Failed(reason), ..a.push_flow }, ..a })
}

/// The login flow failed for `reason`.
pub open spec fn login_flow_failed_with(a: App, b: App, reason: String) -> bool {
    b == (App { login_flow: LoginFlowState { stage: LoginFlowStage::Failed(reason), ..a.login_flow }, ..a })
}

impl App {
    /// Applies the answer to a login: a session, a two-factor
    /// challenge, or the failure's message.
    pub fn apply_login_outcome(&mut self, r: Result<PushLoginOutcome, String>)
        ensures
            match r {
                Ok(PushLoginOutcome::Session(token)) => session_applied(*old(self), *final(self), token@),
                Ok(PushLoginOutcome::TotpRequired(challenge)) => {
                    &&& final(self).totp_code_input@ == empty_input()
                    &&& *final(self) == (App {
                        push_flow: PushFlowState {
                            login_challenge: Some(challenge),
                            stage: PushStage::TotpForm,
                            ..old(self).push_flow
                        },
                        totp_code_input: final(self).totp_code_input,
                        screen: Screen::LoginTotp,
                        ..*old(self)
                    })
                },
                Err(reason) => push_failed_with(*old(self), *final(self), reason),
            },
    {
        match r {
            Ok(PushLoginOutcome::Session(token)) => self.apply_login_session(token),
            Ok(PushLoginOutcome::TotpRequired(challenge)) => self.apply_login_totp_required(challenge),
            Err(reason) => self.apply_login_failed(reason),
        }
    }

    /// Applies the answer to an upload. Returns whether the driver
    /// should copy the local container into the server-synced slot.
    pub fn apply_push_result(&mut self, r: Result<PushSummary, String>) -> (mirror: bool)
        ensures
            match r {
                Ok(s) => {
                    &&& push_recorded(*old(self), *final(self), s.alias@, s.blob_size, s.blob_version)
                    &&& mirror == (old(self).wizard_mode == WizardMode::CreateRemote
                        && old(self).profile_local_path is Some && old(self).profile_remote_path is Some)
                },
                Err(reason) => !mirror && push_failed_with(*old(self), *final(self), reason),
            },
    {
        match r {
            Ok(s) => self.apply_push_done(s.alias, s.blob_size, s.blob_version),
            Err(reason) => {
                self.apply_push_failed(reason);
                false
            },
        }
    }

    /// Applies the answer to starting a login flow.
    pub fn apply_login_flow_init_outcome(&mut self, o: LoginFlowInitOutcome)
        ensures
            match o {
                LoginFlowInitOutcome::Started { login_url, token, endpoint } => *final(self) == (App {
                    login_flow: LoginFlowState {
                        login_url: login_url,
                        poll_token: token,
                        poll_endpoint: endpoint,
                        stage: LoginFlowStage::Polling,
                        ..old(self).login_flow
                    },
                    ..*old(self)
                }),
                LoginFlowInitOutcome::Failed(reason) => login_flow_failed_with(*old(self), *final(self), reason),
            },
    {
        match o {
            LoginFlowInitOutcome::Started { login_url, token, endpoint } => self.apply_login_flow_init(
                login_url,
                token,
                endpoint,
            ),
            LoginFlowInitOutcome::Failed(reason) => self.apply_login_flow_init_failed(reason),
        }
    }

    /// Applies the answer to one poll of the login flow; a pending
    /// answer changes nothing.
    pub fn apply_login_flow_poll_outcome(&mut self, o: LoginFlowPollOutcome)
        ensures
            match o {
                LoginFlowPollOutcome::Pending => *final(self) == *old(self),
                LoginFlowPollOutcome::Done { login_name, app_password } => {
                    &&& final(self).username_input@ == old(self).username_input@.with_value(login_name@)
                    &&& final(self).secret_input@ == old(self).secret_input@.with_value(app_password@)
                    &&& final(self).state@ == (WizardStateView {
                        username: login_name@,
                        auth_secret: app_password@,
                        auth_kind: AuthKind::LoginFlow,
                        ..old(self).state@
                    })
                    &&& *final(self) == (App {
                        login_flow: LoginFlowState { stage: LoginFlowStage::Done, ..old(self).login_flow },
                        username_input: final(self).username_input,
                        secret_input: final(self).secret_input,
                        state: final(self).state,
                        ..*old(self)
                    })
                },
                LoginFlowPollOutcome::Failed(reason) => login_flow_failed_with(*old(self), *final(self), reason),
            },
    {
        match o {
            LoginFlowPollOutcome::Pending => {},
            LoginFlowPollOutcome::Done { login_name, app_password } => self.apply_login_flow_done(
                login_name,
                app_password,
            ),
            LoginFlowPollOutcome::Failed(reason) => self.apply_login_flow_failed(reason),
        }
    }

    /// Applies the answer to the probe's cleanup stage: the probe passed,
    /// or it failed at the last stage.
    pub fn apply_probe_cleanup_outcome(&mut self, o: ProbeCleanupOutcome)
        ensures
            match o {
                ProbeCleanupOutcome::Cleaned => probe_updated(
                    *old(self),
                    *final(self),
                    ProbeProgress { cleanup: ProbeStepStatus::Done, ..old(self).state.probe_progress },
                    Some(TestOutcome::Passed),
                    false,
                ),
                ProbeCleanupOutcome::Failed(reason) => probe_failed_at(
                    *old(self),
                    *final(self),
                    ProbeProgress { cleanup: ProbeStepStatus::Failed, ..old(self).state.probe_progress },
                    reason,
                ),
            },
    {
        match o {
            ProbeCleanupOutcome::Cleaned => self.mark_probe_cleanup_ok(),
            ProbeCleanupOutcome::Failed(reason) => self.fail_probe_cleanup(reason),
        }
    }

    /// Applies the answer to writing the wizard's container.
    pub fn apply_save_outcome(&mut self, o: SaveProfileOutcome)
        ensures
            match o {
                SaveProfileOutcome::Saved { path } => save_done(*old(self), *final(self), path@),
                SaveProfileOutcome::Failed(reason) => *final(self) == (App {
                    passphrase_stage: PassphraseStage::Failed(reason),
                    ..*old(self)
                }),
            },
    {
        match o {
            SaveProfileOutcome::Saved { path } => self.apply_save_done(path),
            SaveProfileOutcome::Failed(reason) => self.apply_save_failed(reason),
        }
    }

    /// Applies the answer to re-writing the container under the alias
    /// picked for the upload: the upload is requested, or the sub-flow
    /// fails.
    pub fn apply_rewrite_outcome(&mut self, o: SaveProfileOutcome)
        ensures
            match o {
                SaveProfileOutcome::Saved { path } => *final(self) == (App {
                    saved_path: Some(path),
                    push_request_send: true,
                    ..*old(self)
                }),
                SaveProfileOutcome::Failed(reason) => push_failed_with(*old(self), *final(self), reason),
            },
    {
        match o {
            SaveProfileOutcome::Saved { path } => {
                let a = self.take_out();
                *self = App { saved_path: Some(path), push_request_send: true, ..a };
            },
            SaveProfileOutcome::Failed(reason) => self.apply_push_failed(reason),
        }
    }
}

} // verus!
