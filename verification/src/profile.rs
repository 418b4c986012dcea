//! Plain-value model of the profile container the wizard produces and
//! the manage screens browse: a set of named inner profiles, each
//! pointing at one storage provider.

use vstd::prelude::*;
use crate::text::str_eq;

verus! {

/// What happens when an upload meets a remote file of the same name.
#[derive(Clone, Copy, Debug, Default, PartialEq, Eq, Structural)]
pub enum CollisionPolicy {
    #[default]
    Rename,
    Overwrite,
    Fail,
}

/// How a Nextcloud profile authenticates.
#[derive(Clone, Copy, Debug, PartialEq, Eq, Structural)]
pub enum NextcloudAuthKind {
    AppPassword,
    LoginFlowToken,
}

/// Connection data of a Nextcloud inner profile.
#[derive(Clone, Debug)]
pub struct NextcloudConnection {
    pub server_url: String,
    pub username: String,
    pub auth_kind: NextcloudAuthKind,
    pub secret: String,
    pub remote_root: String,
}

/// OAuth tokens and folder of a Google Drive, OneDrive or Dropbox
/// inner profile.
#[derive(Clone, Debug)]
pub struct OAuthConnection {
    pub root_folder: String,
    /// The provider's id of the folder, once it has been looked up;
    /// Dropbox profiles keep none.
    pub root_folder_id: Option<String>,
    pub user_email: String,
    pub access_token: String,
    pub refresh_token: String,
    pub token_type: String,
    pub expires_at: u64,
    pub scope: String,
}

#[derive(Clone, Debug)]
pub enum ProviderProfile {
    Nextcloud(NextcloudConnection),
    GoogleDrive(OAuthConnection),
    OneDrive(OAuthConnection),
    Dropbox(OAuthConnection),
}

/// One named connection inside the container.
#[derive(Clone, Debug)]
pub struct PlainProfile {
    pub profile_version: u32,
    pub profile_id: String,
    pub alias: String,
    /// Name of the provider family uploads go to by default.
    pub default_target: String,
    pub providers: Vec<ProviderProfile>,
    pub collision_policy: CollisionPolicy,
    /// Where the profile's settings come from: the position of the
    /// profile in the container as it was decrypted, whose settings it
    /// keeps; `None` for a profile made in this session, which has the
    /// default settings. The settings themselves are never read here.
    pub settings_from: Option<usize>,
    pub created_at: String,
    pub updated_at: String,
}

/// The decrypted container: its inner profiles in order.
#[derive(Clone, Debug)]
pub struct ProfileSet {
    pub profiles: Vec<PlainProfile>,
}

/// Key material of an unlocked container, kept so that a connection
/// can be added or removed without asking for the passphrase again.
#[derive(Clone, Debug)]
pub struct ProfileKek {
    pub key: Vec<u8>,
    pub salt: Vec<u8>,
}

pub struct NextcloudConnectionView {
    pub server_url: Seq<char>,
    pub username: Seq<char>,
    pub auth_kind: NextcloudAuthKind,
    pub secret: Seq<char>,
    pub remote_root: Seq<char>,
}

pub struct OAuthConnectionView {
    pub root_folder: Seq<char>,
    pub root_folder_id: Option<Seq<char>>,
    pub user_email: Seq<char>,
    pub access_token: Seq<char>,
    pub refresh_token: Seq<char>,
    pub token_type: Seq<char>,
    pub expires_at: u64,
    pub scope: Seq<char>,
}

pub enum ProviderProfileView {
    Nextcloud(NextcloudConnectionView),
    GoogleDrive(OAuthConnectionView),
    OneDrive(OAuthConnectionView),
    Dropbox(OAuthConnectionView),
}

pub struct PlainProfileView {
    pub profile_version: u32,
    pub profile_id: Seq<char>,
    pub alias: Seq<char>,
    pub default_target: Seq<char>,
    pub providers: Seq<ProviderProfileView>,
    pub collision_policy: CollisionPolicy,
    pub settings_from: Option<usize>,
    pub created_at: Seq<char>,
    pub updated_at: Seq<char>,
}

pub struct ProfileKekView {
    pub key: Seq<u8>,
    pub salt: Seq<u8>,
}

impl View for NextcloudConnection {
    type V = NextcloudConnectionView;

    open spec fn view(&self) -> NextcloudConnectionView {
        NextcloudConnectionView {
            server_url: self.server_url@,
            username: self.username@,
            auth_kind: self.auth_kind,
            secret: self.secret@,
            remote_root: self.remote_root@,
        }
    }
}

impl View for OAuthConnection {
    type V = OAuthConnectionView;

    open spec fn view(&self) -> OAuthConnectionView {
        OAuthConnectionView {
            root_folder: self.root_folder@,
            root_folder_id: match &self.root_folder_id {
                Some(i) => Some(i@),
                None => None,
            },
            user_email: self.user_email@,
            access_token: self.access_token@,
            refresh_token: self.refresh_token@,
            token_type: self.token_type@,
            expires_at: self.expires_at,
            scope: self.scope@,
        }
    }
}

impl View for ProviderProfile {
    type V = ProviderProfileView;

    open spec fn view(&self) -> ProviderProfileView {
        match self {
            ProviderProfile::Nextcloud(n) => ProviderProfileView::Nextcloud(n@),
            ProviderProfile::GoogleDrive(g) => ProviderProfileView::GoogleDrive(g@),
            ProviderProfile::OneDrive(o) => ProviderProfileView::OneDrive(o@),
            ProviderProfile::Dropbox(d) => ProviderProfileView::Dropbox(d@),
        }
    }
}

impl View for PlainProfile {
    type V = PlainProfileView;

    open spec fn view(&self) -> PlainProfileView {
        PlainProfileView {
            profile_version: self.profile_version,
            profile_id: self.profile_id@,
            alias: self.alias@,
            default_target: self.default_target@,
            providers: self.providers@.map_values(|p: ProviderProfile| p@),
            collision_policy: self.collision_policy,
            settings_from: self.settings_from,
            created_at: self.created_at@,
            updated_at: self.updated_at@,
        }
    }
}

impl View for ProfileSet {
    type V = Seq<PlainProfileView>;

    open spec fn view(&self) -> Seq<PlainProfileView> {
        self.profiles@.map_values(|p: PlainProfile| p@)
    }
}

impl View for ProfileKek {
    type V = ProfileKekView;

    open spec fn view(&self) -> ProfileKekView {
        ProfileKekView { key: self.key@, salt: self.salt@ }
    }
}

/// Index of the first profile of `ps` called `alias`, if any.
pub open spec fn position_of_alias(ps: Seq<PlainProfileView>, alias: Seq<char>) -> Option<int>
    decreases ps.len(),
{
    if ps.len() == 0 {
        None
    } else if ps[0].alias == alias {
        Some(0)
    } else {
        match position_of_alias(ps.drop_first(), alias) {
            Some(i) => Some(i + 1),
            None => None,
        }
    }
}

pub proof fn lemma_position_of_alias(ps: Seq<PlainProfileView>, alias: Seq<char>)
    ensures
        match position_of_alias(ps, alias) {
            Some(i) => 0 <= i < ps.len() && ps[i].alias == alias && forall|j: int|
                0 <= j < i ==> ps[j].alias != alias,
            None => forall|j: int| 0 <= j < ps.len() ==> ps[j].alias != alias,
        },
    decreases ps.len(),
{
    if ps.len() > 0 {
        lemma_position_of_alias(ps.drop_first(), alias);
        if ps[0].alias != alias {
            match position_of_alias(ps.drop_first(), alias) {
                Some(i) => {
                    assert forall|j: int| 0 <= j < i + 1 implies ps[j].alias != alias by {
                        if j > 0 {
                            assert(ps[j] == ps.drop_first()[j - 1]);
                        }
                    }
                },
                None => {
                    assert forall|j: int| 0 <= j < ps.len() implies ps[j].alias != alias by {
                        if j > 0 {
                            assert(ps[j] == ps.drop_first()[j - 1]);
                        }
                    }
                },
            }
        }
    }
}

impl ProfileSet {
    pub fn new() -> (s: Self)
        ensures
            s@ == Seq::<PlainProfileView>::empty(),
    {
        ProfileSet { profiles: Vec::new() }
    }

    pub fn with_profile(p: PlainProfile) -> (s: Self)
        ensures
            s@ == seq![p@],
    {
        let mut v = Vec::new();
        v.push(p);
        let s = ProfileSet { profiles: v };
        assert(s@ =~= seq![p@]);
        s
    }

    /// Index of the first inner profile called `alias`.
    pub fn position_of(&self, alias: &str) -> (r: Option<usize>)
        ensures
            r matches Some(i) ==> position_of_alias(self@, alias@) == Some(i as int),
            r is None ==> position_of_alias(self@, alias@) is None,
    {
        proof {
            lemma_position_of_alias(self@, alias@);
        }
        let mut i: usize = 0;
        while i < self.profiles.len()
            invariant
                i <= self.profiles.len(),
                self@.len() == self.profiles.len(),
                forall|j: int| 0 <= j < i ==> self@[j].alias != alias@,
                match position_of_alias(self@, alias@) {
                    Some(k) => 0 <= k < self@.len() && self@[k].alias == alias@ && forall|j: int|
                        0 <= j < k ==> self@[j].alias != alias@,
                    None => forall|j: int| 0 <= j < self@.len() ==> self@[j].alias != alias@,
                },
            decreases self.profiles.len() - i,
        {
            if str_eq(self.profiles[i].alias.as_str(), alias) {
                assert(self@[i as int].alias == alias@);
                return Some(i);
            }
            i = i + 1;
        }
        None
    }

    pub fn contains_alias(&self, alias: &str) -> (b: bool)
        ensures
            b == position_of_alias(self@, alias@) is Some,
    {
        self.position_of(alias).is_some()
    }

    /// The inner profile called `alias`, if present.
    pub fn find_by_alias(&self, alias: &str) -> (r: Option<&PlainProfile>)
        ensures
            match position_of_alias(self@, alias@) {
                Some(i) => (r matches Some(p) && p@ == self@[i]),
                None => r is None,
            },
    {
        proof {
            lemma_position_of_alias(self@, alias@);
        }
        match self.position_of(alias) {
            Some(i) => Some(&self.profiles[i]),
            None => None,
        }
    }
}

impl NextcloudConnection {
    pub fn duplicate(&self) -> (r: Self)
        ensures
            r@ == self@,
    {
        NextcloudConnection {
            server_url: self.server_url.clone(),
            username: self.username.clone(),
            auth_kind: self.auth_kind,
            secret: self.secret.clone(),
            remote_root: self.remote_root.clone(),
        }
    }
}

impl OAuthConnection {
    pub fn duplicate(&self) -> (r: Self)
        ensures
            r@ == self@,
    {
        OAuthConnection {
            root_folder: self.root_folder.clone(),
            root_folder_id: match &self.root_folder_id {
                Some(i) => Some(i.clone()),
                None => None,
            },
            user_email: self.user_email.clone(),
            access_token: self.access_token.clone(),
            refresh_token: self.refresh_token.clone(),
            token_type: self.token_type.clone(),
            expires_at: self.expires_at,
            scope: self.scope.clone(),
        }
    }
}

impl ProviderProfile {
    pub open spec fn kind(self) -> ProviderKindTag {
        match self {
            ProviderProfile::Nextcloud(_) => ProviderKindTag::Nextcloud,
            ProviderProfile::GoogleDrive(_) => ProviderKindTag::GoogleDrive,
            ProviderProfile::OneDrive(_) => ProviderKindTag::OneDrive,
            ProviderProfile::Dropbox(_) => ProviderKindTag::Dropbox,
        }
    }

    pub fn duplicate(&self) -> (r: Self)
        ensures
            r@ == self@,
    {
        match self {
            ProviderProfile::Nextcloud(n) => ProviderProfile::Nextcloud(n.duplicate()),
            ProviderProfile::GoogleDrive(g) => ProviderProfile::GoogleDrive(g.duplicate()),
            ProviderProfile::OneDrive(o) => ProviderProfile::OneDrive(o.duplicate()),
            ProviderProfile::Dropbox(d) => ProviderProfile::Dropbox(d.duplicate()),
        }
    }
}

/// The four provider families, without their data.
#[derive(Clone, Copy, Debug, PartialEq, Eq, Structural)]
pub enum ProviderKindTag {
    Nextcloud,
    GoogleDrive,
    OneDrive,
    Dropbox,
}

pub open spec fn kind_of(p: ProviderProfileView) -> ProviderKindTag {
    match p {
        ProviderProfileView::Nextcloud(_) => ProviderKindTag::Nextcloud,
        ProviderProfileView::GoogleDrive(_) => ProviderKindTag::GoogleDrive,
        ProviderProfileView::OneDrive(_) => ProviderKindTag::OneDrive,
        ProviderProfileView::Dropbox(_) => ProviderKindTag::Dropbox,
    }
}

/// Index of the first provider entry of family `k` at or after `i`.
pub open spec fn first_of_kind_from(ps: Seq<ProviderProfileView>, k: ProviderKindTag, i: nat) -> Option<int>
    decreases ps.len() - i,
{
    if i >= ps.len() {
        None
    } else if kind_of(ps[i as int]) == k {
        Some(i as int)
    } else {
        first_of_kind_from(ps, k, i + 1)
    }
}

pub open spec fn first_of_kind(ps: Seq<ProviderProfileView>, k: ProviderKindTag) -> Option<int> {
    first_of_kind_from(ps, k, 0)
}

pub proof fn lemma_first_of_kind_from(ps: Seq<ProviderProfileView>, k: ProviderKindTag, i: nat)
    ensures
        first_of_kind_from(ps, k, i) matches Some(j) ==> i <= j < ps.len() && kind_of(ps[j]) == k,
    decreases ps.len() - i,
{
    if i < ps.len() && kind_of(ps[i as int]) != k {
        lemma_first_of_kind_from(ps, k, i + 1);
    }
}

fn kind_tag(p: &ProviderProfile) -> (k: ProviderKindTag)
    ensures
        k == kind_of(p@),
{
    match p {
        ProviderProfile::Nextcloud(_) => ProviderKindTag::Nextcloud,
        ProviderProfile::GoogleDrive(_) => ProviderKindTag::GoogleDrive,
        ProviderProfile::OneDrive(_) => ProviderKindTag::OneDrive,
        ProviderProfile::Dropbox(_) => ProviderKindTag::Dropbox,
    }
}

impl PlainProfile {
    pub fn duplicate(&self) -> (r: Self)
        ensures
            r@ == self@,
    {
        let mut v: Vec<ProviderProfile> = Vec::new();
        let mut i: usize = 0;
        while i < self.providers.len()
            invariant
                i <= self.providers.len(),
                v@.len() == i,
                forall|j: int| 0 <= j < i ==> (#[trigger] v@[j])@ == self.providers@[j]@,
            decreases self.providers.len() - i,
        {
            v.push(self.providers[i].duplicate());
            i = i + 1;
        }
        let r = PlainProfile {
            profile_version: self.profile_version,
            profile_id: self.profile_id.clone(),
            alias: self.alias.clone(),
            default_target: self.default_target.clone(),
            providers: v,
            collision_policy: self.collision_policy,
            settings_from: self.settings_from,
            created_at: self.created_at.clone(),
            updated_at: self.updated_at.clone(),
        };
        assert(r@.providers =~= self@.providers);
        r
    }

    /// Index of the first provider entry of family `k`.
    pub fn first_of_kind(&self, k: ProviderKindTag) -> (r: Option<usize>)
        ensures
            match r {
                Some(j) => {
                    &&& first_of_kind(self@.providers, k) == Some(j as int)
                    &&& j < self.providers@.len()
                    &&& kind_of(self@.providers[j as int]) == k
                },
                None => first_of_kind(self@.providers, k) is None,
            },
    {
        proof {
            lemma_first_of_kind_from(self@.providers, k, 0);
        }
        let mut i: usize = 0;
        while i < self.providers.len()
            invariant
                i <= self.providers.len(),
                self@.providers.len() == self.providers@.len(),
                first_of_kind(self@.providers, k) == first_of_kind_from(self@.providers, k, i as nat),
            decreases self.providers.len() - i,
        {
            if kind_tag(&self.providers[i]) == k {
                assert(self@.providers[i as int] == self.providers@[i as int]@);
                return Some(i);
            }
            i = i + 1;
        }
        None
    }
}

impl ProfileSet {
    /// A copy of the container, profile by profile.
    pub fn duplicate(&self) -> (r: Self)
        ensures
            r@ == self@,
    {
        let mut v: Vec<PlainProfile> = Vec::new();
        let mut i: usize = 0;
        while i < self.profiles.len()
            invariant
                i <= self.profiles.len(),
                v@.len() == i,
                forall|j: int| 0 <= j < i ==> (#[trigger] v@[j])@ == self.profiles@[j]@,
            decreases self.profiles.len() - i,
        {
            v.push(self.profiles[i].duplicate());
            i = i + 1;
        }
        let r = ProfileSet { profiles: v };
        assert(r@ =~= self@);
        r
    }
}

impl ProfileKek {
    pub fn from_parts(key: Vec<u8>, salt: Vec<u8>) -> (k: Self)
        ensures
            k@ == (ProfileKekView { key: key@, salt: salt@ }),
    {
        ProfileKek { key, salt }
    }
}

} // verus!
