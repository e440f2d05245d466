//! The numbers at the end of the site's links, such as `team_page.cfm?clan_id=7861`.

use crate::error::{invalid_link, required, result_view, ParseError};
use crate::number::{parse_u32, parse_u64, parsed_u32, parsed_u64};
use crate::steam::SteamID;
use crate::text::{rsplit_once, split_last, CharSet};
use vstd::prelude::*;

verus! {

/// What follows the last `=` of a link.
pub open spec fn link_tail(link: Seq<char>) -> Option<Seq<char>> {
    match split_last(link, CharSet::One('=')) {
        Some((_, tail)) => Some(tail),
        None => None,
    }
}

/// The number at the end of a link, behind its last `=`, where it fits 32 bits.
pub open spec fn link_id(link: Seq<char>) -> Option<u32> {
    match link_tail(link) {
        Some(tail) => parsed_u32(tail),
        None => None,
    }
}

/// The number at the end of a link, behind its last `=`, where it fits 64 bits.
pub open spec fn link_long_id(link: Seq<char>) -> Option<u64> {
    match link_tail(link) {
        Some(tail) => parsed_u64(tail),
        None => None,
    }
}

/// The number at the end of a link.
pub fn id_from_link(link: &str) -> (r: Option<u32>)
    ensures
        r == link_id(link@),
{
    match rsplit_once(link, CharSet::One('=')) {
        Some((_, tail)) => parse_u32(tail),
        None => None,
    }
}

/// The number of the team that a link leads to.
pub fn team_id_from_link(link: &str) -> (r: Result<u32, ParseError>)
    ensures
        result_view(r) == required(link_id(link@), invalid_link(link@, "team id"@)),
{
    match id_from_link(link) {
        Some(id) => Ok(id),
        None => Err(ParseError::bad_link(link, "team id")),
    }
}

/// The number of the match that a link leads to.
pub fn match_id_from_link(link: &str) -> (r: Result<u32, ParseError>)
    ensures
        result_view(r) == required(link_id(link@), invalid_link(link@, "match id"@)),
{
    match id_from_link(link) {
        Some(id) => Ok(id),
        None => Err(ParseError::bad_link(link, "match id")),
    }
}

/// The player that a link leads to.
pub fn steam_id_from_link(link: &str) -> (r: Result<SteamID, ParseError>)
    ensures
        result_view(r) == required(link_long_id(link@), invalid_link(link@, "user id"@)),
{
    let id = match rsplit_once(link, CharSet::One('=')) {
        Some((_, tail)) => parse_u64(tail),
        None => None,
    };
    match id {
        Some(id) => Ok(SteamID { id }),
        None => Err(ParseError::bad_link(link, "user id")),
    }
}

} // verus!
