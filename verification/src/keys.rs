//! Key presses as the state machine sees them, the verdicts the
//! driver supplies with each press, and the outside actions a press
//! can ask the driver to carry out.

use vstd::prelude::*;

verus! {

/// The key that was pressed.
#[derive(Clone, Copy, Debug, PartialEq, Eq, Structural)]
pub enum KeyCode {
    Char(char),
    Enter,
    Esc,
    Tab,
    BackTab,
    Backspace,
    Up,
    Down,
    Left,
    Right,
    /// Any key the screens do not react to.
    Other,
}

/// Whether Control was held.
#[derive(Clone, Copy, Debug, PartialEq, Eq, Structural)]
pub enum KeyModifiers {
    Plain,
    Control,
}

#[derive(Clone, Copy, Debug, PartialEq, Eq, Structural)]
pub struct KeyEvent {
    pub code: KeyCode,
    pub modifiers: KeyModifiers,
}

impl KeyEvent {
    pub fn new(code: KeyCode, modifiers: KeyModifiers) -> (k: Self)
        ensures
            k.code == code,
            k.modifiers == modifiers,
    {
        KeyEvent { code, modifiers }
    }
}

/// `Ctrl-C`, which quits from every screen.
pub open spec fn is_ctrl_c(k: KeyEvent) -> bool {
    k.modifiers == KeyModifiers::Control && k.code == KeyCode::Char('c')
}

/// Verdicts of the account, password-strength and alias checks on the
/// inputs as they stand when the key arrives, and a seed for alias
/// suggestions. The driver computes them with the profile core.
#[derive(Clone, Copy, Debug, PartialEq, Eq, Structural)]
pub struct KeyContext {
    /// The account e-mail field holds a plausible address.
    pub email_plausible: bool,
    /// The wizard passphrase is too weak to accept without a warning.
    pub passphrase_weak: bool,
    /// The trimmed alias field is an acceptable container alias.
    pub alias_valid: bool,
    /// The provider's path encoder accepts the trimmed remote folder
    /// field.
    pub folder_encodable: bool,
    /// Seed of the alias suggestion offered on this key press.
    pub seed: u64,
}

/// Which flow a copy / open / paste action belongs to.
#[derive(Clone, Copy, Debug, PartialEq, Eq, Structural)]
pub enum UrlTarget {
    LoginFlow,
    GoogleDrive,
    OneDrive,
    Dropbox,
}

/// Work that only the driver can do: clipboard and browser access.
#[derive(Clone, Debug, PartialEq, Eq)]
pub enum ExternalAction {
    /// Put `url` on the clipboard, then report with `apply_copy_result`.
    CopyUrl { target: UrlTarget, url: String },
    /// Open `url` in a browser, then report with `apply_open_result`.
    OpenUrl { target: UrlTarget, url: String },
    /// Read the clipboard and hand its text to `apply_dropbox_paste`.
    PasteCode,
}

pub enum ExternalActionView {
    CopyUrl { target: UrlTarget, url: Seq<char> },
    OpenUrl { target: UrlTarget, url: Seq<char> },
    PasteCode,
}

impl View for ExternalAction {
    type V = ExternalActionView;

    open spec fn view(&self) -> ExternalActionView {
        match self {
            ExternalAction::CopyUrl { target, url } => ExternalActionView::CopyUrl {
                target: *target,
                url: url@,
            },
            ExternalAction::OpenUrl { target, url } => ExternalActionView::OpenUrl {
                target: *target,
                url: url@,
            },
            ExternalAction::PasteCode => ExternalActionView::PasteCode,
        }
    }
}

pub open spec fn opt_action_view(a: Option<ExternalAction>) -> Option<ExternalActionView> {
    match a {
        Some(x) => Some(x@),
        None => None,
    }
}

} // verus!
