//! How the outcomes of the OAuth requests change the state, and where
//! the driver reports clipboard and browser results.

use vstd::prelude::*;
use crate::app::App;
use crate::clock::unix_time;
use crate::input::TextInputView;
use crate::keys::UrlTarget;
use crate::text::{trim, trim_spec};
use crate::wizard::{
    DropboxSetupStage, DropboxSetupState, DropboxSetupView, DropboxStageView,
    GoogleDriveSetupStage, GoogleDriveSetupState, LoginFlowState,
};

verus! {

/// A device flow that has started: the codes and URIs the server sent,
/// the expiry `expires_in` seconds after `now` (saturating), a polling
/// interval of at least one second, last polled `now`.
pub open spec fn device_flow_started(
    s: GoogleDriveSetupState,
    now: u64,
    user_code: String,
    verification_uri: String,
    verification_uri_complete: Option<String>,
    device_code: String,
    expires_in: u64,
    interval: u64,
) -> GoogleDriveSetupState {
    GoogleDriveSetupState {
        user_code: user_code,
        verification_uri: verification_uri,
        verification_uri_complete: verification_uri_complete,
        device_code: device_code,
        expires_at: now.saturating_add(expires_in),
        interval_secs: if interval > 1 {
            interval
        } else {
            1
        },
        last_poll_at: now,
        stage: GoogleDriveSetupStage::Polling,
        ..s
    }
}

/// Tokens granted at `now`: a refresh token or scope the server did not
/// send keeps the previous one; the access token expires `expires_in`
/// seconds after `now` (saturating); the account e-mail is fetched next.
pub open spec fn device_tokens_stored(
    s: GoogleDriveSetupState,
    now: u64,
    access_token: String,
    refresh_token: Option<String>,
    token_type: String,
    expires_in: u64,
    scope: Option<String>,
) -> GoogleDriveSetupState {
    GoogleDriveSetupState {
        access_token: access_token,
        refresh_token: match refresh_token {
            Some(r) => r,
            None => s.refresh_token,
        },
        token_type: token_type,
        access_expires_at: now.saturating_add(expires_in),
        scope: match scope {
            Some(x) => x,
            None => s.scope,
        },
        stage: GoogleDriveSetupStage::Fetching,
        ..s
    }
}

fn start_device_flow(
    s: GoogleDriveSetupState,
    now: u64,
    user_code: String,
    verification_uri: String,
    verification_uri_complete: Option<String>,
    device_code: String,
    expires_in: u64,
    interval: u64,
) -> (r: GoogleDriveSetupState)
    ensures
        r == device_flow_started(
            s,
            now,
            user_code,
            verification_uri,
            verification_uri_complete,
            device_code,
            expires_in,
            interval,
        ),
{
    let poll = if interval > 1 {
        interval
    } else {
        1
    };
    GoogleDriveSetupState {
        user_code: user_code,
        verification_uri: verification_uri,
        verification_uri_complete: verification_uri_complete,
        device_code: device_code,
        expires_at: now.saturating_add(expires_in),
        interval_secs: poll,
        last_poll_at: now,
        stage: GoogleDriveSetupStage::Polling,
        ..s
    }
}

fn store_device_tokens(
    s: GoogleDriveSetupState,
    now: u64,
    access_token: String,
    refresh_token: Option<String>,
    token_type: String,
    expires_in: u64,
    scope: Option<String>,
) -> (r: GoogleDriveSetupState)
    ensures
        r == device_tokens_stored(s, now, access_token, refresh_token, token_type, expires_in, scope),
{
    let refresh = match refresh_token {
        Some(x) => x,
        None => s.refresh_token,
    };
    let sc = match scope {
        Some(x) => x,
        None => s.scope,
    };
    GoogleDriveSetupState {
        access_token: access_token,
        refresh_token: refresh,
        token_type: token_type,
        access_expires_at: now.saturating_add(expires_in),
        scope: sc,
        stage: GoogleDriveSetupStage::Fetching,
        ..s
    }
}

impl App {
    /// The Google Drive device flow started at `now`.
    pub fn apply_gdrive_init_at(
        &mut self,
        now: u64,
        user_code: String,
        verification_uri: String,
        verification_uri_complete: Option<String>,
        device_code: String,
        expires_in: u64,
        interval: u64,
    )
        ensures
            *final(self) == (App {
                gdrive_setup: device_flow_started(
                    old(self).gdrive_setup,
                    now,
                    user_code,
                    verification_uri,
                    verification_uri_complete,
                    device_code,
                    expires_in,
                    interval,
                ),
                ..*old(self)
            }),
    {
        let a = self.take_out();
        let s = start_device_flow(
            a.gdrive_setup,
            now,
            user_code,
            verification_uri,
            verification_uri_complete,
            device_code,
            expires_in,
            interval,
        );
        *self = App { gdrive_setup: s, ..a };
    }

    /// The Google Drive device flow started, now by the system clock.
    pub fn apply_gdrive_init(
        &mut self,
        user_code: String,
        verification_uri: String,
        verification_uri_complete: Option<String>,
        device_code: String,
        expires_in: u64,
        interval: u64,
    )
        ensures
            exists|now: u64|
                *final(self) == (App {
                    gdrive_setup: #[trigger] device_flow_started(
                        old(self).gdrive_setup,
                        now,
                        user_code,
                        verification_uri,
                        verification_uri_complete,
                        device_code,
                        expires_in,
                        interval,
                    ),
                    ..*old(self)
                }),
    {
        let now = unix_time().0;
        self.apply_gdrive_init_at(
            now,
            user_code,
            verification_uri,
            verification_uri_complete,
            device_code,
            expires_in,
            interval,
        );
    }

    pub fn apply_gdrive_init_failed(&mut self, reason: String)
        ensures
            *final(self) == (App {
                gdrive_setup: GoogleDriveSetupState {
                    stage: GoogleDriveSetupStage::Failed(reason),
                    ..old(self).gdrive_setup
                },
                ..*old(self)
            }),
    {
        let a = self.take_out();
        *self = App {
            gdrive_setup: GoogleDriveSetupState { stage: GoogleDriveSetupStage::Failed(reason), ..a.gdrive_setup },
            ..a
        };
    }

    /// Google Drive granted tokens at `now`; the account e-mail is requested.
    pub fn apply_gdrive_tokens_at(
        &mut self,
        now: u64,
        access_token: String,
        refresh_token: Option<String>,
        token_type: String,
        expires_in: u64,
        scope: Option<String>,
    )
        ensures
            *final(self) == (App {
                gdrive_setup: device_tokens_stored(
                    old(self).gdrive_setup,
                    now,
                    access_token,
                    refresh_token,
                    token_type,
                    expires_in,
                    scope,
                ),
                gdrive_request_email: true,
                ..*old(self)
            }),
    {
        let a = self.take_out();
        let s = store_device_tokens(
            a.gdrive_setup,
            now,
            access_token,
            refresh_token,
            token_type,
            expires_in,
            scope,
        );
        *self = App { gdrive_setup: s, gdrive_request_email: true, ..a };
    }

    /// Google Drive granted tokens, now by the system clock.
    pub fn apply_gdrive_tokens(
        &mut self,
        access_token: String,
        refresh_token: Option<String>,
        token_type: String,
        expires_in: u64,
        scope: Option<String>,
    )
        ensures
            exists|now: u64|
                *final(self) == (App {
                    gdrive_setup: #[trigger] device_tokens_stored(
                        old(self).gdrive_setup,
                        now,
                        access_token,
                        refresh_token,
                        token_type,
                        expires_in,
                        scope,
                    ),
                    gdrive_request_email: true,
                    ..*old(self)
                }),
    {
        let now = unix_time().0;
        self.apply_gdrive_tokens_at(now, access_token, refresh_token, token_type, expires_in, scope);
    }

    /// The account e-mail arrived: the flow is done.
    pub fn apply_gdrive_email(&mut self, email: String)
        ensures
            *final(self) == (App {
                gdrive_setup: GoogleDriveSetupState {
                    user_email: email,
                    stage: GoogleDriveSetupStage::Done,
                    ..old(self).gdrive_setup
                },
                ..*old(self)
            }),
    {
        let a = self.take_out();
        *self = App {
            gdrive_setup: GoogleDriveSetupState {
                user_email: email,
                stage: GoogleDriveSetupStage::Done,
                ..a.gdrive_setup
            },
            ..a
        };
    }

    /// The flow failed: its pending requests are withdrawn.
    pub fn apply_gdrive_failed(&mut self, reason: String)
        ensures
            *final(self) == (App {
                gdrive_setup: GoogleDriveSetupState {
                    stage: GoogleDriveSetupStage::Failed(reason),
                    ..old(self).gdrive_setup
                },
                gdrive_request_init: false,
                gdrive_request_email: false,
                ..*old(self)
            }),
    {
        let a = self.take_out();
        *self = App {
            gdrive_setup: GoogleDriveSetupState { stage: GoogleDriveSetupStage::Failed(reason), ..a.gdrive_setup },
            gdrive_request_init: false,
            gdrive_request_email: false,
            ..a
        };
    }

    /// The server asked to poll more slowly: five seconds more
    /// (saturating).
    pub fn bump_gdrive_interval(&mut self)
        ensures
            *final(self) == (App {
                gdrive_setup: GoogleDriveSetupState {
                    interval_secs: old(self).gdrive_setup.interval_secs.saturating_add(5),
                    ..old(self).gdrive_setup
                },
                ..*old(self)
            }),
    {
        let a = self.take_out();
        let v = a.gdrive_setup.interval_secs.saturating_add(5);
        *self = App { gdrive_setup: GoogleDriveSetupState { interval_secs: v, ..a.gdrive_setup }, ..a };
    }
}

impl App {
    /// The OneDrive device flow started at `now`.
    pub fn apply_onedrive_init_at(
        &mut self,
        now: u64,
        user_code: String,
        verification_uri: String,
        verification_uri_complete: Option<String>,
        device_code: String,
        expires_in: u64,
        interval: u64,
    )
        ensures
            *final(self) == (App {
                onedrive_setup: device_flow_started(
                    old(self).onedrive_setup,
                    now,
                    user_code,
                    verification_uri,
                    verification_uri_complete,
                    device_code,
                    expires_in,
                    interval,
                ),
                ..*old(self)
            }),
    {
        let a = self.take_out();
        let s = start_device_flow(
            a.onedrive_setup,
            now,
            user_code,
            verification_uri,
            verification_uri_complete,
            device_code,
            expires_in,
            interval,
        );
        *self = App { onedrive_setup: s, ..a };
    }

    /// The OneDrive device flow started, now by the system clock.
    pub fn apply_onedrive_init(
        &mut self,
        user_code: String,
        verification_uri: String,
        verification_uri_complete: Option<String>,
        device_code: String,
        expires_in: u64,
        interval: u64,
    )
        ensures
            exists|now: u64|
                *final(self) == (App {
                    onedrive_setup: #[trigger] device_flow_started(
                        old(self).onedrive_setup,
                        now,
                        user_code,
                        verification_uri,
                        verification_uri_complete,
                        device_code,
                        expires_in,
                        interval,
                    ),
                    ..*old(self)
                }),
    {
        let now = unix_time().0;
        self.apply_onedrive_init_at(
            now,
            user_code,
            verification_uri,
            verification_uri_complete,
            device_code,
            expires_in,
            interval,
        );
    }

    pub fn apply_onedrive_init_failed(&mut self, reason: String)
        ensures
            *final(self) == (App {
                onedrive_setup: GoogleDriveSetupState {
                    stage: GoogleDriveSetupStage::Failed(reason),
                    ..old(self).onedrive_setup
                },
                ..*old(self)
            }),
    {
        let a = self.take_out();
        *self = App {
            onedrive_setup: GoogleDriveSetupState { stage: GoogleDriveSetupStage::Failed(reason), ..a.onedrive_setup },
            ..a
        };
    }

    /// OneDrive granted tokens at `now`; the account e-mail is requested.
    pub fn apply_onedrive_tokens_at(
        &mut self,
        now: u64,
        access_token: String,
        refresh_token: Option<String>,
        token_type: String,
        expires_in: u64,
        scope: Option<String>,
    )
        ensures
            *final(self) == (App {
                onedrive_setup: device_tokens_stored(
                    old(self).onedrive_setup,
                    now,
                    access_token,
                    refresh_token,
                    token_type,
                    expires_in,
                    scope,
                ),
                onedrive_request_email: true,
                ..*old(self)
            }),
    {
        let a = self.take_out();
        let s = store_device_tokens(
            a.onedrive_setup,
            now,
            access_token,
            refresh_token,
            token_type,
            expires_in,
            scope,
        );
        *self = App { onedrive_setup: s, onedrive_request_email: true, ..a };
    }

    /// OneDrive granted tokens, now by the system clock.
    pub fn apply_onedrive_tokens(
        &mut self,
        access_token: String,
        refresh_token: Option<String>,
        token_type: String,
        expires_in: u64,
        scope: Option<String>,
    )
        ensures
            exists|now: u64|
                *final(self) == (App {
                    onedrive_setup: #[trigger] device_tokens_stored(
                        old(self).onedrive_setup,
                        now,
                        access_token,
                        refresh_token,
                        token_type,
                        expires_in,
                        scope,
                    ),
                    onedrive_request_email: true,
                    ..*old(self)
                }),
    {
        let now = unix_time().0;
        self.apply_onedrive_tokens_at(now, access_token, refresh_token, token_type, expires_in, scope);
    }

    /// The account e-mail arrived: the flow is done.
    pub fn apply_onedrive_email(&mut self, email: String)
        ensures
            *final(self) == (App {
                onedrive_setup: GoogleDriveSetupState {
                    user_email: email,
                    stage: GoogleDriveSetupStage::Done,
                    ..old(self).onedrive_setup
                },
                ..*old(self)
            }),
    {
        let a = self.take_out();
        *self = App {
            onedrive_setup: GoogleDriveSetupState {
                user_email: email,
                stage: GoogleDriveSetupStage::Done,
                ..a.onedrive_setup
            },
            ..a
        };
    }

    /// The flow failed: its pending requests are withdrawn.
    pub fn apply_onedrive_failed(&mut self, reason: String)
        ensures
            *final(self) == (App {
                onedrive_setup: GoogleDriveSetupState {
                    stage: GoogleDriveSetupStage::Failed(reason),
                    ..old(self).onedrive_setup
                },
                onedrive_request_init: false,
                onedrive_request_email: false,
                ..*old(self)
            }),
    {
        let a = self.take_out();
        *self = App {
            onedrive_setup: GoogleDriveSetupState { stage: GoogleDriveSetupStage::Failed(reason), ..a.onedrive_setup },
            onedrive_request_init: false,
            onedrive_request_email: false,
            ..a
        };
    }

    /// The server asked to poll more slowly: five seconds more
    /// (saturating).
    pub fn bump_onedrive_interval(&mut self)
        ensures
            *final(self) == (App {
                onedrive_setup: GoogleDriveSetupState {
                    interval_secs: old(self).onedrive_setup.interval_secs.saturating_add(5),
                    ..old(self).onedrive_setup
                },
                ..*old(self)
            }),
    {
        let a = self.take_out();
        let v = a.onedrive_setup.interval_secs.saturating_add(5);
        *self = App { onedrive_setup: GoogleDriveSetupState { interval_secs: v, ..a.onedrive_setup }, ..a };
    }
}

/// Dropbox tokens granted at `now`: stored as for the device flows,
/// and the consumed paste code and PKCE verifier are cleared.
pub open spec fn dropbox_tokens_stored(
    s: DropboxSetupView,
    now: u64,
    access_token: Seq<char>,
    refresh_token: Option<Seq<char>>,
    token_type: Seq<char>,
    expires_in: u64,
    scope: Option<Seq<char>>,
) -> DropboxSetupView {
    DropboxSetupView {
        access_token: access_token,
        refresh_token: match refresh_token {
            Some(r) => r,
            None => s.refresh_token,
        },
        token_type: token_type,
        access_expires_at: now.saturating_add(expires_in),
        scope: match scope {
            Some(x) => x,
            None => s.scope,
        },
        pasted_code: s.pasted_code.with_value(Seq::empty()),
        code_verifier: Seq::empty(),
        stage: DropboxStageView::Fetching,
        ..s
    }
}

fn store_dropbox_tokens(
    s: DropboxSetupState,
    now: u64,
    access_token: String,
    refresh_token: Option<String>,
    token_type: String,
    expires_in: u64,
    scope: Option<String>,
) -> (r: DropboxSetupState)
    ensures
        r@ == dropbox_tokens_stored(
            s@,
            now,
            access_token@,
            crate::wizard::opt_str_view(refresh_token),
            token_type@,
            expires_in,
            crate::wizard::opt_str_view(scope),
        ),
{
    let refresh = match refresh_token {
        Some(x) => x,
        None => s.refresh_token,
    };
    let sc = match scope {
        Some(x) => x,
        None => s.scope,
    };
    proof {
        reveal_strlit("");
        assert(""@ =~= Seq::<char>::empty());
    }
    let mut code = s.pasted_code;
    code.set_value("");
    DropboxSetupState {
        access_token: access_token,
        refresh_token: refresh,
        token_type: token_type,
        access_expires_at: now.saturating_add(expires_in),
        scope: sc,
        pasted_code: code,
        code_verifier: String::new(),
        stage: DropboxSetupStage::Fetching,
        ..s
    }
}

impl App {
    /// The authorize URL and PKCE verifier are ready: the screen waits
    /// for the pasted code.
    pub fn apply_dropbox_init(&mut self, authorize_url: String, code_verifier: String)
        ensures
            *final(self) == (App {
                dropbox_setup: DropboxSetupState {
                    authorize_url: authorize_url,
                    code_verifier: code_verifier,
                    stage: DropboxSetupStage::AwaitingPaste,
                    ..old(self).dropbox_setup
                },
                ..*old(self)
            }),
    {
        let a = self.take_out();
        *self = App {
            dropbox_setup: DropboxSetupState {
                authorize_url: authorize_url,
                code_verifier: code_verifier,
                stage: DropboxSetupStage::AwaitingPaste,
                ..a.dropbox_setup
            },
            ..a
        };
    }

    pub fn apply_dropbox_init_failed(&mut self, reason: String)
        ensures
            *final(self) == (App {
                dropbox_setup: DropboxSetupState {
                    stage: DropboxSetupStage::Failed(reason),
                    ..old(self).dropbox_setup
                },
                ..*old(self)
            }),
    {
        let a = self.take_out();
        *self = App {
            dropbox_setup: DropboxSetupState { stage: DropboxSetupStage::Failed(reason), ..a.dropbox_setup },
            ..a
        };
    }

    /// Dropbox granted tokens at `now`; the account e-mail is
    /// requested.
    pub fn apply_dropbox_tokens_at(
        &mut self,
        now: u64,
        access_token: String,
        refresh_token: Option<String>,
        token_type: String,
        expires_in: u64,
        scope: Option<String>,
    )
        ensures
            final(self).dropbox_setup@ == dropbox_tokens_stored(
                old(self).dropbox_setup@,
                now,
                access_token@,
                crate::wizard::opt_str_view(refresh_token),
                token_type@,
                expires_in,
                crate::wizard::opt_str_view(scope),
            ),
            *final(self) == (App {
                dropbox_setup: final(self).dropbox_setup,
                dropbox_request_email: true,
                ..*old(self)
            }),
    {
        let a = self.take_out();
        let s = store_dropbox_tokens(
            a.dropbox_setup,
            now,
            access_token,
            refresh_token,
            token_type,
            expires_in,
            scope,
        );
        *self = App { dropbox_setup: s, dropbox_request_email: true, ..a };
    }

    /// Dropbox granted tokens, now by the system clock.
    pub fn apply_dropbox_tokens(
        &mut self,
        access_token: String,
        refresh_token: Option<String>,
        token_type: String,
        expires_in: u64,
        scope: Option<String>,
    )
        ensures
            exists|now: u64|
                final(self).dropbox_setup@ == #[trigger] dropbox_tokens_stored(
                    old(self).dropbox_setup@,
                    now,
                    access_token@,
                    crate::wizard::opt_str_view(refresh_token),
                    token_type@,
                    expires_in,
                    crate::wizard::opt_str_view(scope),
                ),
            *final(self) == (App {
                dropbox_setup: final(self).dropbox_setup,
                dropbox_request_email: true,
                ..*old(self)
            }),
    {
        let now = unix_time().0;
        self.apply_dropbox_tokens_at(now, access_token, refresh_token, token_type, expires_in, scope);
    }

    pub fn apply_dropbox_email(&mut self, email: String)
        ensures
            *final(self) == (App {
                dropbox_setup: DropboxSetupState {
                    user_email: email,
                    stage: DropboxSetupStage::Done,
                    ..old(self).dropbox_setup
                },
                ..*old(self)
            }),
    {
        let a = self.take_out();
        *self = App {
            dropbox_setup: DropboxSetupState {
                user_email: email,
                stage: DropboxSetupStage::Done,
                ..a.dropbox_setup
            },
            ..a
        };
    }

    /// The Dropbox flow failed: its pending requests are withdrawn.
    pub fn apply_dropbox_failed(&mut self, reason: String)
        ensures
            *final(self) == (App {
                dropbox_setup: DropboxSetupState {
                    stage: DropboxSetupStage::Failed(reason),
                    ..old(self).dropbox_setup
                },
                dropbox_request_init: false,
                dropbox_request_exchange: false,
                dropbox_request_email: false,
                ..*old(self)
            }),
    {
        let a = self.take_out();
        *self = App {
            dropbox_setup: DropboxSetupState { stage: DropboxSetupStage::Failed(reason), ..a.dropbox_setup },
            dropbox_request_init: false,
            dropbox_request_exchange: false,
            dropbox_request_email: false,
            ..a
        };
    }
}

/// What a clipboard write is reported as: `copied`, or why it failed.
pub open spec fn copy_message(r: Result<(), &'static str>) -> &'static str {
    match r {
        Ok(()) => "copied",
        Err(why) => why,
    }
}

/// What a browser launch is reported as: `opened`, or why it failed.
pub open spec fn open_message(r: Result<(), &'static str>) -> &'static str {
    match r {
        Ok(()) => "opened",
        Err(why) => why,
    }
}

/// The flow `t` shows `msg` as its clipboard message (`clipboard`) or
/// as its browser message.
pub open spec fn message_shown(a: App, b: App, t: UrlTarget, clipboard: bool, msg: &'static str) -> bool {
    match (t, clipboard) {
        (UrlTarget::LoginFlow, true) => b == (App {
            login_flow: LoginFlowState { clipboard_message: Some(msg), ..a.login_flow },
            ..a
        }),
        (UrlTarget::LoginFlow, false) => b == (App {
            login_flow: LoginFlowState { browser_message: Some(msg), ..a.login_flow },
            ..a
        }),
        (UrlTarget::GoogleDrive, true) => b == (App {
            gdrive_setup: GoogleDriveSetupState { clipboard_message: Some(msg), ..a.gdrive_setup },
            ..a
        }),
        (UrlTarget::GoogleDrive, false) => b == (App {
            gdrive_setup: GoogleDriveSetupState { browser_message: Some(msg), ..a.gdrive_setup },
            ..a
        }),
        (UrlTarget::OneDrive, true) => b == (App {
            onedrive_setup: GoogleDriveSetupState { clipboard_message: Some(msg), ..a.onedrive_setup },
            ..a
        }),
        (UrlTarget::OneDrive, false) => b == (App {
            onedrive_setup: GoogleDriveSetupState { browser_message: Some(msg), ..a.onedrive_setup },
            ..a
        }),
        (UrlTarget::Dropbox, true) => b == (App {
            dropbox_setup: DropboxSetupState { clipboard_message: Some(msg), ..a.dropbox_setup },
            ..a
        }),
        (UrlTarget::Dropbox, false) => b == (App {
            dropbox_setup: DropboxSetupState { browser_message: Some(msg), ..a.dropbox_setup },
            ..a
        }),
    }
}

fn show_login_flow_clipboard_message(a: App, msg: &'static str) -> (b: App)
    ensures
        message_shown(a, b, UrlTarget::LoginFlow, true, msg),
{
    App { login_flow: LoginFlowState { clipboard_message: Some(msg), ..a.login_flow }, ..a }
}

fn show_login_flow_browser_message(a: App, msg: &'static str) -> (b: App)
    ensures
        message_shown(a, b, UrlTarget::LoginFlow, false, msg),
{
    App { login_flow: LoginFlowState { browser_message: Some(msg), ..a.login_flow }, ..a }
}

fn show_gdrive_setup_clipboard_message(a: App, msg: &'static str) -> (b: App)
    ensures
        message_shown(a, b, UrlTarget::GoogleDrive, true, msg),
{
    App { gdrive_setup: GoogleDriveSetupState { clipboard_message: Some(msg), ..a.gdrive_setup }, ..a }
}

fn show_gdrive_setup_browser_message(a: App, msg: &'static str) -> (b: App)
    ensures
        message_shown(a, b, UrlTarget::GoogleDrive, false, msg),
{
    App { gdrive_setup: GoogleDriveSetupState { browser_message: Some(msg), ..a.gdrive_setup }, ..a }
}

fn show_onedrive_setup_clipboard_message(a: App, msg: &'static str) -> (b: App)
    ensures
        message_shown(a, b, UrlTarget::OneDrive, true, msg),
{
    App { onedrive_setup: GoogleDriveSetupState { clipboard_message: Some(msg), ..a.onedrive_setup }, ..a }
}

fn show_onedrive_setup_browser_message(a: App, msg: &'static str) -> (b: App)
    ensures
        message_shown(a, b, UrlTarget::OneDrive, false, msg),
{
    App { onedrive_setup: GoogleDriveSetupState { browser_message: Some(msg), ..a.onedrive_setup }, ..a }
}

fn show_dropbox_setup_clipboard_message(a: App, msg: &'static str) -> (b: App)
    ensures
        message_shown(a, b, UrlTarget::Dropbox, true, msg),
{
    App { dropbox_setup: DropboxSetupState { clipboard_message: Some(msg), ..a.dropbox_setup }, ..a }
}

fn show_dropbox_setup_browser_message(a: App, msg: &'static str) -> (b: App)
    ensures
        message_shown(a, b, UrlTarget::Dropbox, false, msg),
{
    App { dropbox_setup: DropboxSetupState { browser_message: Some(msg), ..a.dropbox_setup }, ..a }
}

fn show_message(a: App, t: UrlTarget, clipboard: bool, msg: &'static str) -> (b: App)
    ensures
        message_shown(a, b, t, clipboard, msg),
{
    match (t, clipboard) {
        (UrlTarget::LoginFlow, true) => show_login_flow_clipboard_message(a, msg),
        (UrlTarget::LoginFlow, false) => show_login_flow_browser_message(a, msg),
        (UrlTarget::GoogleDrive, true) => show_gdrive_setup_clipboard_message(a, msg),
        (UrlTarget::GoogleDrive, false) => show_gdrive_setup_browser_message(a, msg),
        (UrlTarget::OneDrive, true) => show_onedrive_setup_clipboard_message(a, msg),
        (UrlTarget::OneDrive, false) => show_onedrive_setup_browser_message(a, msg),
        (UrlTarget::Dropbox, true) => show_dropbox_setup_clipboard_message(a, msg),
        (UrlTarget::Dropbox, false) => show_dropbox_setup_browser_message(a, msg),
    }
}

/// The pasted text, trimmed, fills the paste field.
#[verifier::opaque]
pub open spec fn code_pasted(a: App, b: App, text: Seq<char>) -> bool {
    &&& b.dropbox_setup@ == (DropboxSetupView {
        pasted_code: a.dropbox_setup@.pasted_code.with_value(trim_spec(text)),
        clipboard_message: Some("pasted"@),
        ..a.dropbox_setup@
    })
    &&& b == (App { dropbox_setup: b.dropbox_setup, ..a })
}

fn paste_code(a: App, text: String) -> (b: App)
    ensures
        code_pasted(a, b, text@),
{
    proof {
        reveal(code_pasted);
    }
    let t = trim(text.as_str());
    let mut code = a.dropbox_setup.pasted_code;
    code.set_value(t.as_str());
    App {
        dropbox_setup: DropboxSetupState { pasted_code: code, clipboard_message: Some("pasted"), ..a.dropbox_setup },
        ..a
    }
}

impl App {
    /// Reports how putting flow `target`'s URL on the clipboard went.
    pub fn apply_copy_result(&mut self, target: UrlTarget, result: Result<(), &'static str>)
        ensures
            message_shown(*old(self), *final(self), target, true, copy_message(result)),
    {
        let a = self.take_out();
        let msg = match result {
            Ok(()) => "copied",
            Err(why) => why,
        };
        *self = show_message(a, target, true, msg);
    }

    /// Reports how opening flow `target`'s URL in a browser went.
    pub fn apply_open_result(&mut self, target: UrlTarget, result: Result<(), &'static str>)
        ensures
            message_shown(*old(self), *final(self), target, false, open_message(result)),
    {
        let a = self.take_out();
        let msg = match result {
            Ok(()) => "opened",
            Err(why) => why,
        };
        *self = show_message(a, target, false, msg);
    }

    /// Hands over the clipboard's text for the Dropbox paste field:
    /// blank text changes nothing.
    pub fn apply_dropbox_paste(&mut self, text: String)
        ensures
            trim_spec(text@).len() > 0 ==> code_pasted(*old(self), *final(self), text@),
            trim_spec(text@).len() == 0 ==> *final(self) == *old(self),
    {
        let a = self.take_out();
        if crate::text::is_blank(text.as_str()) {
            *self = a;
        } else {
            *self = paste_code(a, text);
        }
    }
}

} // verus!
