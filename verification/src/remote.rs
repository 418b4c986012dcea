//! The decisions around the network and disk calls of the push flow and
//! the upload probe: short messages for their failures, the blob
//! version a push starts from, the names of the probe's files, and the
//! sidecar that goes with a container file.

use vstd::prelude::*;
use crate::text::{from_str, str_eq, string_push};

verus! {

/// Why a Nextcloud Login Flow v2 call failed.
#[derive(Clone, Copy, Debug, PartialEq, Eq, Structural)]
pub enum LoginFlowFailure {
    BadUrl,
    Network,
    ServerError,
    Decode,
}

pub open spec fn login_flow_diag_spec(e: LoginFlowFailure) -> Seq<char> {
    match e {
        LoginFlowFailure::BadUrl => "invalid server url"@,
        LoginFlowFailure::Network => "network error"@,
        LoginFlowFailure::ServerError => "server error"@,
        LoginFlowFailure::Decode => "bad response"@,
    }
}

/// The message shown for a failed Login Flow call.
pub fn login_flow_diag(e: LoginFlowFailure) -> (r: &'static str)
    ensures
        r@ == login_flow_diag_spec(e),
{
    match e {
        LoginFlowFailure::BadUrl => "invalid server url",
        LoginFlowFailure::Network => "network error",
        LoginFlowFailure::ServerError => "server error",
        LoginFlowFailure::Decode => "bad response",
    }
}

/// Error codes the account server answers with.
#[derive(Clone, Copy, Debug, PartialEq, Eq, Structural)]
pub enum ApiErrorKind {
    Unauthorized,
    Forbidden,
    NotFound,
    VersionConflict,
    BlobTooLarge,
    RateLimited,
    ServerError,
    InvalidRequest,
}

/// Why a call to the account server failed.
pub enum ApiFailure {
    Network,
    Transport,
    Decode,
    NoToken,
    /// An error answer: its code and the server's message.
    Api(ApiErrorKind, String),
}

pub enum ApiFailureView {
    Network,
    Transport,
    Decode,
    NoToken,
    Api(ApiErrorKind, Seq<char>),
}

impl View for ApiFailure {
    type V = ApiFailureView;

    open spec fn view(&self) -> ApiFailureView {
        match self {
            ApiFailure::Network => ApiFailureView::Network,
            ApiFailure::Transport => ApiFailureView::Transport,
            ApiFailure::Decode => ApiFailureView::Decode,
            ApiFailure::NoToken => ApiFailureView::NoToken,
            ApiFailure::Api(k, m) => ApiFailureView::Api(*k, m@),
        }
    }
}

/// The short message for a failed server call. It never carries a
/// token, a password or a code; only an invalid-request answer passes
/// the server's own message on.
pub open spec fn short_error_spec(e: ApiFailureView) -> Seq<char> {
    match e {
        ApiFailureView::Network | ApiFailureView::Transport => "could not reach the server"@,
        ApiFailureView::Decode => "bad server response"@,
        ApiFailureView::NoToken => "missing session"@,
        ApiFailureView::Api(k, m) => match k {
            ApiErrorKind::Unauthorized => "wrong credentials"@,
            ApiErrorKind::Forbidden => "forbidden"@,
            ApiErrorKind::NotFound => "not found"@,
            ApiErrorKind::VersionConflict => "version conflict — please retry"@,
            ApiErrorKind::BlobTooLarge => "blob too large"@,
            ApiErrorKind::RateLimited => "rate limited"@,
            ApiErrorKind::ServerError => "server error"@,
            ApiErrorKind::InvalidRequest => m,
        },
    }
}

/// The message shown for a failed server call.
pub fn short_error(e: ApiFailure) -> (r: String)
    ensures
        r@ == short_error_spec(e@),
{
    match e {
        ApiFailure::Network | ApiFailure::Transport => from_str("could not reach the server"),
        ApiFailure::Decode => from_str("bad server response"),
        ApiFailure::NoToken => from_str("missing session"),
        ApiFailure::Api(k, m) => match k {
            ApiErrorKind::Unauthorized => from_str("wrong credentials"),
            ApiErrorKind::Forbidden => from_str("forbidden"),
            ApiErrorKind::NotFound => from_str("not found"),
            ApiErrorKind::VersionConflict => from_str("version conflict — please retry"),
            ApiErrorKind::BlobTooLarge => from_str("blob too large"),
            ApiErrorKind::RateLimited => from_str("rate limited"),
            ApiErrorKind::ServerError => from_str("server error"),
            ApiErrorKind::InvalidRequest => m,
        },
    }
}

/// One entry of the server's profile list: an alias and the version of
/// its blob.
pub struct RemoteEntry {
    pub alias: String,
    pub blob_version: u64,
}

/// The blob version of the first entry called `alias`, if any.
pub open spec fn version_of_spec(entries: Seq<(Seq<char>, u64)>, alias: Seq<char>) -> Option<u64>
    decreases entries.len(),
{
    if entries.len() == 0 {
        None
    } else if entries[0].0 == alias {
        Some(entries[0].1)
    } else {
        version_of_spec(entries.drop_first(), alias)
    }
}

pub open spec fn entries_view(v: Seq<RemoteEntry>) -> Seq<(Seq<char>, u64)> {
    v.map_values(|e: RemoteEntry| (e.alias@, e.blob_version))
}

/// How a push starts: whether the alias must be created first, and
/// the version the upload expects (the listed one, or 0 for a new
/// alias).
pub open spec fn push_start_spec(entries: Seq<(Seq<char>, u64)>, alias: Seq<char>) -> (bool, u64) {
    match version_of_spec(entries, alias) {
        Some(v) => (false, v),
        None => (true, 0),
    }
}

/// Whether the alias must be created before the push, and the blob
/// version the push expects.
pub fn push_start(entries: &Vec<RemoteEntry>, alias: &str) -> (r: (bool, u64))
    ensures
        r == push_start_spec(entries_view(entries@), alias@),
{
    let mut i: usize = 0;
    assert(entries_view(entries@).skip(0) =~= entries_view(entries@));
    while i < entries.len()
        invariant
            i <= entries.len(),
            version_of_spec(entries_view(entries@), alias@) == version_of_spec(
                entries_view(entries@).skip(i as int),
                alias@,
            ),
        decreases entries.len() - i,
    {
        let ghost rest = entries_view(entries@).skip(i as int);
        assert(rest[0] == (entries@[i as int].alias@, entries@[i as int].blob_version));
        if str_eq(entries[i].alias.as_str(), alias) {
            return (false, entries[i].blob_version);
        }
        assert(rest.drop_first() =~= entries_view(entries@).skip(i + 1));
        i = i + 1;
    }
    assert(entries_view(entries@).skip(i as int) =~= Seq::<(Seq<char>, u64)>::empty());
    (true, 0)
}

/// One lower-case hexadecimal digit.
pub open spec fn hex_char(d: nat) -> char {
    if d < 10 {
        ((d + 48) as u8) as char
    } else {
        ((d + 87) as u8) as char
    }
}

/// `n` in lower-case hexadecimal, without leading zeros.
pub open spec fn hex_spec(n: nat) -> Seq<char>
    decreases n,
{
    if n < 16 {
        seq![hex_char(n)]
    } else {
        hex_spec(n / 16).push(hex_char(n % 16))
    }
}

/// `n` in lower-case hexadecimal, zero-padded to at least `width`
/// digits.
pub open spec fn hex_padded_spec(n: nat, width: nat) -> Seq<char> {
    let digits = hex_spec(n);
    if digits.len() < width {
        Seq::new((width - digits.len()) as nat, |i: int| '0') + digits
    } else {
        digits
    }
}

fn hex_digit(d: u128) -> (c: char)
    requires
        d < 16,
    ensures
        c == hex_char(d as nat),
{
    let b: u8 = if d < 10 {
        (d as u8) + 48
    } else {
        (d as u8) + 87
    };
    b as char
}

fn hex(n: u128) -> (s: String)
    ensures
        s@ == hex_spec(n as nat),
    decreases n,
{
    if n < 16 {
        let mut s = String::new();
        string_push(&mut s, hex_digit(n));
        assert(s@ =~= seq![hex_char(n as nat)]);
        s
    } else {
        let mut s = hex(n / 16);
        string_push(&mut s, hex_digit(n % 16));
        s
    }
}

/// The nonce that names the probe's files: a nanosecond clock reading
/// in hexadecimal, at least sixteen digits.
pub fn nonce_text(n: u128) -> (s: String)
    ensures
        s@ == hex_padded_spec(n as nat, 16),
{
    let digits = hex(n);
    let len = digits.unicode_len();
    if len < 16 {
        let mut s = String::new();
        let mut k: usize = 0;
        while k < 16 - len
            invariant
                len < 16,
                k <= 16 - len,
                s@ == Seq::new(k as nat, |i: int| '0'),
            decreases 16 - len - k,
        {
            string_push(&mut s, '0');
            assert(s@ =~= Seq::new((k + 1) as nat, |i: int| '0'));
            k = k + 1;
        }
        s.append(digits.as_str());
        s
    } else {
        digits
    }
}

/// Name of the disposable file the probe uploads.
pub fn test_file_basename(nonce: &str) -> (s: String)
    ensures
        s@ == "zz-drop-test-"@ + nonce@ + ".txt"@,
{
    let mut s = from_str("zz-drop-test-");
    s.append(nonce);
    s.append(".txt");
    s
}

/// Name of a local temporary file the probe writes.
pub fn temp_file_name(nonce: &str) -> (s: String)
    ensures
        s@ == "zz-drop-test-"@ + nonce@ + ".tmp"@,
{
    let mut s = from_str("zz-drop-test-");
    s.append(nonce);
    s.append(".tmp");
    s
}

/// Which default-alias sidecar goes with a container file.
#[derive(Clone, Copy, Debug, PartialEq, Eq, Structural)]
pub enum SidecarKind {
    /// `last-default-local`, next to `profiles-local.zz`.
    Local,
    /// `last-default-remote`, next to `profiles-remote.zz`.
    Remote,
}

pub open spec fn sidecar_for_spec(file_name: Seq<char>) -> Option<SidecarKind> {
    if file_name == "profiles-local.zz"@ {
        Some(SidecarKind::Local)
    } else if file_name == "profiles-remote.zz"@ {
        Some(SidecarKind::Remote)
    } else {
        None
    }
}

/// The sidecar paired with the container file called `file_name`.
pub fn sidecar_for(file_name: &str) -> (r: Option<SidecarKind>)
    ensures
        r == sidecar_for_spec(file_name@),
{
    if str_eq(file_name, "profiles-local.zz") {
        Some(SidecarKind::Local)
    } else if str_eq(file_name, "profiles-remote.zz") {
        Some(SidecarKind::Remote)
    } else {
        None
    }
}

impl SidecarKind {
    /// The sidecar's file name.
    pub fn file_name(self) -> (r: &'static str)
        ensures
            r@ == (match self {
                SidecarKind::Local => "last-default-local"@,
                SidecarKind::Remote => "last-default-remote"@,
            }),
    {
        match self {
            SidecarKind::Local => "last-default-local",
            SidecarKind::Remote => "last-default-remote",
        }
    }
}

} // verus!
