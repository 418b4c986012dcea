//! Readable alias suggestions of the shape `<adjective>-<noun>-NN`,
//! optionally led by the provider's name.

use vstd::prelude::*;
use crate::text::from_str;

verus! {

/// Provider name put in front of a connection alias suggestion.
#[derive(Clone, Copy, Debug, PartialEq, Eq, Structural)]
pub enum ProviderPrefix {
    Nextcloud,
    GoogleDrive,
    OneDrive,
    Dropbox,
}

pub open spec fn prefix_label_spec(p: ProviderPrefix) -> Seq<char> {
    match p {
        ProviderPrefix::Nextcloud => "nextcloud"@,
        ProviderPrefix::GoogleDrive => "gdrive"@,
        ProviderPrefix::OneDrive => "onedrive"@,
        ProviderPrefix::Dropbox => "dropbox"@,
    }
}

pub open spec fn adjective_spec(i: int) -> Seq<char> {
    if i == 0 {
        "amber"@
    } else if i == 1 {
        "brisk"@
    } else if i == 2 {
        "calm"@
    } else if i == 3 {
        "dusky"@
    } else if i == 4 {
        "eager"@
    } else if i == 5 {
        "fuzzy"@
    } else if i == 6 {
        "gentle"@
    } else {
        "hardy"@
    }
}

pub open spec fn noun_spec(i: int) -> Seq<char> {
    if i == 0 {
        "otter"@
    } else if i == 1 {
        "heron"@
    } else if i == 2 {
        "maple"@
    } else if i == 3 {
        "comet"@
    } else if i == 4 {
        "badger"@
    } else if i == 5 {
        "falcon"@
    } else if i == 6 {
        "cedar"@
    } else {
        "lynx"@
    }
}

pub open spec fn digit_spec(d: int) -> char {
    if d == 0 {
        '0'
    } else if d == 1 {
        '1'
    } else if d == 2 {
        '2'
    } else if d == 3 {
        '3'
    } else if d == 4 {
        '4'
    } else if d == 5 {
        '5'
    } else if d == 6 {
        '6'
    } else if d == 7 {
        '7'
    } else if d == 8 {
        '8'
    } else {
        '9'
    }
}

/// The two-digit number (10 to 99) a seed picks.
pub open spec fn number_of_seed(seed: u64) -> int {
    (seed as int / 64) % 90 + 10
}

/// The suggestion a seed picks: an adjective, a noun and a two-digit
/// number, joined by dashes.
pub open spec fn alias_from_seed(seed: u64) -> Seq<char> {
    let n = number_of_seed(seed);
    adjective_spec(seed as int % 8) + "-"@ + noun_spec((seed as int / 8) % 8) + "-"@ + seq![
        digit_spec(n / 10),
        digit_spec(n % 10),
    ]
}

/// The provider's name, a dash, then the seed's suggestion.
pub open spec fn prefixed_alias_from_seed(p: ProviderPrefix, seed: u64) -> Seq<char> {
    prefix_label_spec(p) + "-"@ + alias_from_seed(seed)
}

impl ProviderPrefix {
    pub fn label(self) -> (s: &'static str)
        ensures
            s@ == prefix_label_spec(self),
    {
        proof {
            reveal_strlit("nextcloud");
            reveal_strlit("gdrive");
            reveal_strlit("onedrive");
            reveal_strlit("dropbox");
        }
        match self {
            ProviderPrefix::Nextcloud => "nextcloud",
            ProviderPrefix::GoogleDrive => "gdrive",
            ProviderPrefix::OneDrive => "onedrive",
            ProviderPrefix::Dropbox => "dropbox",
        }
    }
}

fn adjective(i: u64) -> (s: &'static str)
    requires
        i < 8,
    ensures
        s@ == adjective_spec(i as int),
{
    if i == 0 {
        "amber"
    } else if i == 1 {
        "brisk"
    } else if i == 2 {
        "calm"
    } else if i == 3 {
        "dusky"
    } else if i == 4 {
        "eager"
    } else if i == 5 {
        "fuzzy"
    } else if i == 6 {
        "gentle"
    } else {
        "hardy"
    }
}

fn noun(i: u64) -> (s: &'static str)
    requires
        i < 8,
    ensures
        s@ == noun_spec(i as int),
{
    if i == 0 {
        "otter"
    } else if i == 1 {
        "heron"
    } else if i == 2 {
        "maple"
    } else if i == 3 {
        "comet"
    } else if i == 4 {
        "badger"
    } else if i == 5 {
        "falcon"
    } else if i == 6 {
        "cedar"
    } else {
        "lynx"
    }
}

fn digit(d: u64) -> (c: char)
    requires
        d < 10,
    ensures
        c == digit_spec(d as int),
{
    if d == 0 {
        '0'
    } else if d == 1 {
        '1'
    } else if d == 2 {
        '2'
    } else if d == 3 {
        '3'
    } else if d == 4 {
        '4'
    } else if d == 5 {
        '5'
    } else if d == 6 {
        '6'
    } else if d == 7 {
        '7'
    } else if d == 8 {
        '8'
    } else {
        '9'
    }
}

/// The suggestion `seed` picks.
pub fn suggest_alias_from(seed: u64) -> (s: String)
    ensures
        s@ == alias_from_seed(seed),
{
    let n = (seed / 64) % 90 + 10;
    let mut s = from_str(adjective(seed % 8));
    s.append("-");
    s.append(noun((seed / 8) % 8));
    s.append("-");
    let mut tail: Vec<char> = Vec::new();
    tail.push(digit(n / 10));
    tail.push(digit(n % 10));
    let t = crate::text::chars_to_string(&tail);
    s.append(t.as_str());
    proof {
        reveal_strlit("-");
        assert(t@ =~= seq![digit_spec(n as int / 10), digit_spec(n as int % 10)]);
    }
    s
}

/// The suggestion `seed` picks, behind the provider's name.
pub fn suggest_alias_for_seed(p: ProviderPrefix, seed: u64) -> (s: String)
    ensures
        s@ == prefixed_alias_from_seed(p, seed),
{
    let mut s = from_str(p.label());
    s.append("-");
    let tail = suggest_alias_from(seed);
    s.append(tail.as_str());
    proof {
        reveal_strlit("-");
    }
    s
}

/// A fresh suggestion, seeded by the clock.
pub fn suggest_alias() -> (s: String)
    ensures
        exists|seed: u64| s@ == alias_from_seed(seed),
{
    let seed = crate::clock::unix_time().1 as u64;
    suggest_alias_from(seed)
}

/// A fresh suggestion behind the provider's name, seeded by the clock.
pub fn suggest_alias_for(p: ProviderPrefix) -> (s: String)
    ensures
        exists|seed: u64| s@ == prefixed_alias_from_seed(p, seed),
{
    let seed = crate::clock::unix_time().1 as u64;
    suggest_alias_for_seed(p, seed)
}

} // verus!
