//! The addresses under which a service that fronts the parsers offers their records.

use crate::number::{decimal, push_decimal};
use crate::steam::SteamID;
use crate::vocabulary::GameMode;
use vstd::prelude::*;
use vstd::string::*;

verus! {

/// What can be asked of the service.
#[derive(Debug, Clone, Copy, PartialEq, Eq)]
pub enum Endpoint {
    Match { id: u32 },
    Player { id: SteamID },
    PlayerHistory { id: SteamID },
    Transactions { format: GameMode },
    Team { id: u32 },
    TeamRoster { id: u32 },
    TeamMatches { id: u32 },
    Maps { format: GameMode },
}

impl Endpoint {
    /// What follows the address of the service in the address of the endpoint.
    pub open spec fn path(self) -> Seq<char> {
        match self {
            Endpoint::Match { id } => "/match/"@ + decimal(id as nat),
            Endpoint::Player { id } => "/player/"@ + decimal(id.id as nat),
            Endpoint::PlayerHistory { id } => "/player/"@ + decimal(id.id as nat) + "/history"@,
            Endpoint::Transactions { format } => "/transactions/"@ + format.name_of(),
            Endpoint::Team { id } => "/team/"@ + decimal(id as nat),
            Endpoint::TeamRoster { id } => "/team/"@ + decimal(id as nat) + "/roster"@,
            Endpoint::TeamMatches { id } => "/team/"@ + decimal(id as nat) + "/matches"@,
            Endpoint::Maps { format } => "/maps/"@ + format.name_of(),
        }
    }

    /// The address of the endpoint at a service whose address is `api_url`.
    pub fn build_url(&self, api_url: &str) -> (r: String)
        ensures
            r@ == api_url@ + self.path(),
    {
        let mut url = api_url.to_owned();
        match self {
            Endpoint::Match { id } => {
                url.append("/match/");
                push_decimal(&mut url, *id as u64);
                assert(url@ =~= api_url@ + self.path());
            },
            Endpoint::Player { id } => {
                url.append("/player/");
                push_decimal(&mut url, id.id);
                assert(url@ =~= api_url@ + self.path());
            },
            Endpoint::PlayerHistory { id } => {
                url.append("/player/");
                push_decimal(&mut url, id.id);
                url.append("/history");
                assert(url@ =~= api_url@ + self.path());
            },
            Endpoint::Transactions { format } => {
                url.append("/transactions/");
                url.append(format.as_str());
                assert(url@ =~= api_url@ + self.path());
            },
            Endpoint::Team { id } => {
                url.append("/team/");
                push_decimal(&mut url, *id as u64);
                assert(url@ =~= api_url@ + self.path());
            },
            Endpoint::TeamRoster { id } => {
                url.append("/team/");
                push_decimal(&mut url, *id as u64);
                url.append("/roster");
                assert(url@ =~= api_url@ + self.path());
            },
            Endpoint::TeamMatches { id } => {
                url.append("/team/");
                push_decimal(&mut url, *id as u64);
                url.append("/matches");
                assert(url@ =~= api_url@ + self.path());
            },
            Endpoint::Maps { format } => {
                url.append("/maps/");
                url.append(format.as_str());
                assert(url@ =~= api_url@ + self.path());
            },
        }
        url
    }
}

} // verus!
