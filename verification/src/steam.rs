//! The identifier of a Steam account.
//!
//! The textual forms of an identifier are read by the `steamid_ng` crate.

use vstd::prelude::*;
use vstd::std_specs::convert::FromSpecImpl;

verus! {

/// The identifier of a Steam account: its 64-bit form.
#[derive(Debug, Clone, Copy, PartialEq, Eq, Hash)]
pub struct SteamID {
    pub id: u64,
}

impl DeepView for SteamID {
    type V = u64;

    open spec fn deep_view(&self) -> u64 {
        self.id
    }
}

impl Default for SteamID {
    /// The identifier of no account.
    fn default() -> (r: SteamID)
        ensures
            r.id == 0,
    {
        SteamID { id: 0 }
    }
}

impl From<u64> for SteamID {
    fn from(id: u64) -> (r: SteamID) {
        SteamID { id }
    }
}

impl FromSpecImpl<u64> for SteamID {
    open spec fn obeys_from_spec() -> bool {
        true
    }

    open spec fn from_spec(id: u64) -> SteamID {
        SteamID { id }
    }
}

/// The 64-bit form of the identifier that `steamid_ng::SteamID::from_steam3` reads out of
/// a text such as `[U:1:22202]`.
pub uninterp spec fn steam3_id(text: Seq<char>) -> Option<u64>;

/// The 64-bit form of the identifier that `steamid_ng::SteamID` reads out of a text through
/// `FromStr`, which takes the 64-bit form in base ten and the two bracketed forms.
pub uninterp spec fn text_id(text: Seq<char>) -> Option<u64>;

/// Calls `steamid_ng::SteamID::from_steam3` and hands out the 64-bit form of what it read.
/// The contract gives it a name and claims nothing more of it.
#[verifier::external_body]
fn read_steam3(text: &str) -> (r: Option<u64>)
    ensures
        r == steam3_id(text@),
{
    steamid_ng::SteamID::from_steam3(text).ok().map(u64::from)
}

/// Calls `steamid_ng::SteamID::from_str` and hands out the 64-bit form of what it read.
/// The contract gives it a name and claims nothing more of it.
#[verifier::external_body]
fn read_id(text: &str) -> (r: Option<u64>)
    ensures
        r == text_id(text@),
{
    <steamid_ng::SteamID as std::str::FromStr>::from_str(text).ok().map(u64::from)
}

impl SteamID {
    /// The 64-bit form of the identifier.
    pub fn steam64(&self) -> (r: u64)
        ensures
            r == self.id,
    {
        self.id
    }

    /// The identifier that a text in the form `[U:1:22202]` stands for.
    pub fn from_steam3(text: &str) -> (r: Option<SteamID>)
        ensures
            r.deep_view() == steam3_id(text@),
    {
        match read_steam3(text) {
            Some(id) => Some(SteamID { id }),
            None => None,
        }
    }

    /// The identifier that a text stands for, in any of the forms that identifiers are
    /// written in.
    pub fn from_text(text: &str) -> (r: Option<SteamID>)
        ensures
            r.deep_view() == text_id(text@),
    {
        match read_id(text) {
            Some(id) => Some(SteamID { id }),
            None => None,
        }
    }
}

} // verus!
