//! The page of everyone who is or was on the roster of a team.

use crate::collect::{collected, push_row};
use crate::data::{RosterHistory, RosterHistoryView, TeamRosterData, TeamRosterDataView};
use crate::date::{date_in_layout, DateFormat};
use crate::dom::{attr, element_attr, first_in, matches_in, selected_text, Document, Query};
use crate::error::{
    invalid_date, invalid_text, not_found, result_view, ParseError, ParseErrorView, ScrapeError,
    ScrapeErrorView,
};
use crate::parser::team::mended_link;
use crate::parser::{Parser, ROSTER_HISTORY_DATE_FORMAT};
use crate::steam::{steam3_id, SteamID};
use crate::text::{replace, skip_prefixes, trim_start_matches};
use crate::vocabulary::MembershipRole;
use vstd::prelude::*;
use vstd::string::*;

verus! {

pub const SELECTOR_ROSTER_ITEM: &'static str =
    ".container .white-row-small .row-fluid > .col-md-12 > .clearfix";

pub const SELECTOR_ROSTER_NAME: &'static str = "h5 b";

pub const SELECTOR_ROSTER_ID: &'static str = "h5 small";

pub const SELECTOR_ROSTER_ROLE: &'static str = "div > small";

pub const SELECTOR_ROSTER_JOINED: &'static str = "span.text-success small";

pub const SELECTOR_ROSTER_LEFT: &'static str = "span.text-danger small";

pub const SELECTOR_STEAM: &'static str = "p.muted a[href*=\"//steamcommunity.com/groups\"]";

/// Reads the page of the history of a team's roster.
pub struct TeamRosterHistoryParser {
    selector_item: Query,
    selector_name: Query,
    selector_id: Query,
    selector_role: Query,
    selector_joined: Query,
    selector_left: Query,
    selector_steam_group: Query,
    date_format: DateFormat,
}

impl TeamRosterHistoryParser {
    #[verifier::type_invariant]
    spec fn compiled(self) -> bool {
        &&& self.selector_item@ == SELECTOR_ROSTER_ITEM@
        &&& self.selector_name@ == SELECTOR_ROSTER_NAME@
        &&& self.selector_id@ == SELECTOR_ROSTER_ID@
        &&& self.selector_role@ == SELECTOR_ROSTER_ROLE@
        &&& self.selector_joined@ == SELECTOR_ROSTER_JOINED@
        &&& self.selector_left@ == SELECTOR_ROSTER_LEFT@
        &&& self.selector_steam_group@ == SELECTOR_STEAM@
        &&& self.date_format@ == ROSTER_HISTORY_DATE_FORMAT@
    }

    /// Whether the selectors and the layouts of dates of this parser are what they are meant to be.
    pub open spec fn selectors_compile() -> bool {
        &&& Query::is_selector(SELECTOR_ROSTER_ITEM@)
        &&& Query::is_selector(SELECTOR_ROSTER_NAME@)
        &&& Query::is_selector(SELECTOR_ROSTER_ID@)
        &&& Query::is_selector(SELECTOR_ROSTER_ROLE@)
        &&& Query::is_selector(SELECTOR_ROSTER_JOINED@)
        &&& Query::is_selector(SELECTOR_ROSTER_LEFT@)
        &&& Query::is_selector(SELECTOR_STEAM@)
        &&& DateFormat::is_layout(ROSTER_HISTORY_DATE_FORMAT@)
    }

    /// Compiles the selectors and the layouts of dates; nothing where one of them does not compile.
    pub fn new() -> (r: Option<TeamRosterHistoryParser>)
        ensures
            r is Some <==> TeamRosterHistoryParser::selectors_compile(),
    {
        let selector_item = match Query::compile(SELECTOR_ROSTER_ITEM) {
            Some(query) => query,
            None => {
                return None;
            },
        };
        let selector_name = match Query::compile(SELECTOR_ROSTER_NAME) {
            Some(query) => query,
            None => {
                return None;
            },
        };
        let selector_id = match Query::compile(SELECTOR_ROSTER_ID) {
            Some(query) => query,
            None => {
                return None;
            },
        };
        let selector_role = match Query::compile(SELECTOR_ROSTER_ROLE) {
            Some(query) => query,
            None => {
                return None;
            },
        };
        let selector_joined = match Query::compile(SELECTOR_ROSTER_JOINED) {
            Some(query) => query,
            None => {
                return None;
            },
        };
        let selector_left = match Query::compile(SELECTOR_ROSTER_LEFT) {
            Some(query) => query,
            None => {
                return None;
            },
        };
        let selector_steam_group = match Query::compile(SELECTOR_STEAM) {
            Some(query) => query,
            None => {
                return None;
            },
        };
        let date_format = match DateFormat::compile(ROSTER_HISTORY_DATE_FORMAT) {
            Some(format) => format,
            None => {
                return None;
            },
        };
        Some(
            TeamRosterHistoryParser {
                selector_item,
                selector_name,
                selector_id,
                selector_role,
                selector_joined,
                selector_left,
                selector_steam_group,
                date_format,
            },
        )
    }
}

/// One entry of the history, from the texts of its parts: name, identifier, day of
/// joining, day of leaving, and role.
///
/// Name, identifier, day of joining and role have to be there; a day of leaving is there
/// only for who has left. The days are read in the layout `days`. A role that reads like
/// none is taken for that of a member: an entry is kept whatever its role reads.
/// `Former ` before a role is passed over.
pub open spec fn entry_of(
    name: Option<Seq<char>>,
    id: Option<Seq<char>>,
    joined: Option<Seq<char>>,
    left: Option<Seq<char>>,
    role: Option<Seq<char>>,
    days: Seq<char>,
) -> Result<RosterHistoryView, ParseErrorView> {
    if name is None {
        Err(not_found(SELECTOR_ROSTER_NAME@, "member name"@))
    } else if id is None {
        Err(not_found(SELECTOR_ROSTER_ID@, "member steam id"@))
    } else if joined is None {
        Err(not_found(SELECTOR_ROSTER_JOINED@, "member joined date"@))
    } else if role is None {
        Err(not_found(SELECTOR_ROSTER_ROLE@, "member role"@))
    } else if steam3_id(id->0) is None {
        Err(invalid_text(id->0, "member steam id"@))
    } else if date_in_layout(joined->0, days) is None {
        Err(invalid_date(joined->0, "member join date"@))
    } else if left is Some && date_in_layout(left->0, days) is None {
        Err(invalid_date(left->0, "member left date"@))
    } else {
        Ok(
            RosterHistoryView {
                name: name->0,
                steam_id: steam3_id(id->0)->0,
                joined: date_in_layout(joined->0, days)->0,
                left: match left {
                    Some(day) => date_in_layout(day, days),
                    None => None,
                },
                role: MembershipRole::lenient(skip_prefixes(role->0, "Former "@)),
            },
        )
    }
}

/// One entry of the history, from the texts of its parts.
pub fn entry_from_cells(
    name: Option<&str>,
    id: Option<&str>,
    joined: Option<&str>,
    left: Option<&str>,
    role: Option<&str>,
    days: &DateFormat,
) -> (r: Result<RosterHistory, ParseError>)
    ensures
        result_view(r) == entry_of(
            name.deep_view(),
            id.deep_view(),
            joined.deep_view(),
            left.deep_view(),
            role.deep_view(),
            days@,
        ),
{
    let name = match name {
        Some(name) => name,
        None => {
            return Err(ParseError::element_not_found(SELECTOR_ROSTER_NAME, "member name"));
        },
    };
    let id = match id {
        Some(id) => id,
        None => {
            return Err(ParseError::element_not_found(SELECTOR_ROSTER_ID, "member steam id"));
        },
    };
    let joined = match joined {
        Some(joined) => joined,
        None => {
            return Err(ParseError::element_not_found(SELECTOR_ROSTER_JOINED, "member joined date"));
        },
    };
    let role = match role {
        Some(role) => MembershipRole::from_str_or_member(trim_start_matches(role, "Former ")),
        None => {
            return Err(ParseError::element_not_found(SELECTOR_ROSTER_ROLE, "member role"));
        },
    };
    let steam_id = match SteamID::from_steam3(id) {
        Some(steam_id) => steam_id,
        None => {
            return Err(ParseError::bad_text(id, "member steam id"));
        },
    };
    let joined = match days.parse(joined) {
        Some(day) => day,
        None => {
            return Err(ParseError::bad_date(joined, "member join date"));
        },
    };
    let left = match left {
        Some(left) => match days.parse(left) {
            Some(day) => Some(day),
            None => {
                return Err(ParseError::bad_date(left, "member left date"));
            },
        },
        None => None,
    };
    Ok(RosterHistory { name: name.to_owned(), steam_id, joined, left, role })
}

/// The entries of the history of a page, row by row.
pub open spec fn entry_rows(document: Seq<char>) -> Seq<Result<RosterHistoryView, ParseErrorView>> {
    matches_in(document, SELECTOR_ROSTER_ITEM@).map_values(
        |item: scraper::ElementRef|
            entry_of(
                selected_text(item, SELECTOR_ROSTER_NAME@),
                selected_text(item, SELECTOR_ROSTER_ID@),
                selected_text(item, SELECTOR_ROSTER_JOINED@),
                selected_text(item, SELECTOR_ROSTER_LEFT@),
                selected_text(item, SELECTOR_ROSTER_ROLE@),
                ROSTER_HISTORY_DATE_FORMAT@,
            ),
    )
}

/// The link to the group of the team, where the page has one.
pub open spec fn roster_group(document: Seq<char>) -> Option<Seq<char>> {
    match first_in(document, SELECTOR_STEAM@) {
        Some(link) => match element_attr(link, "href"@) {
            Some(address) => Some(mended_link(address)),
            None => None,
        },
        None => None,
    }
}

/// The history of the roster of a page: the first entry that is missing a part or holds
/// a malformed one fails the page.
pub open spec fn roster_page(document: Seq<char>) -> Result<TeamRosterDataView, ScrapeErrorView> {
    match collected(entry_rows(document)) {
        Err(e) => Err(ScrapeErrorView::Parse(e)),
        Ok(history) => Ok(TeamRosterDataView { steam_group: roster_group(document), history }),
    }
}

impl TeamRosterHistoryParser {
    #[verifier::loop_isolation(false)]
    fn history(&self, page: &Document) -> (r: Result<Vec<RosterHistory>, ParseError>)
        ensures
            result_view(r) == collected(entry_rows(page@)),
    {
        proof {
            use_type_invariant(self);
        }
        let rows = page.select(&self.selector_item);
        let ghost items = entry_rows(page@);
        let mut out: Vec<RosterHistory> = Vec::new();
        let mut i: usize = 0;
        assert(items.take(0) =~= Seq::empty());
        assert(out.deep_view() =~= Seq::empty());
        while i < rows.len()
            invariant
                i <= rows.len(),
                collected(items.take(i as int)) == Ok::<Seq<RosterHistoryView>, ParseErrorView>(
                    out.deep_view(),
                ),
            decreases rows.len() - i,
        {
            let item = rows[i];
            let entry = entry_from_cells(
                self.selector_name.select_text(item),
                self.selector_id.select_text(item),
                self.selector_joined.select_text(item),
                self.selector_left.select_text(item),
                self.selector_role.select_text(item),
                &self.date_format,
            );
            match push_row(&mut out, entry, Ghost(items), Ghost(i as int)) {
                Ok(_) => {},
                Err(e) => {
                    return Err(e);
                },
            }
            i += 1;
        }
        assert(items.take(i as int) =~= items);
        Ok(out)
    }
}

impl Parser for TeamRosterHistoryParser {
    type Output = TeamRosterData;

    open spec fn page(&self, document: Seq<char>) -> Result<TeamRosterDataView, ScrapeErrorView> {
        roster_page(document)
    }

    fn parse(&self, document: &str) -> (r: Result<TeamRosterData, ScrapeError>) {
        proof {
            use_type_invariant(self);
        }
        let page = Document::parse(document);
        let steam_group = match page.first(&self.selector_steam_group) {
            Some(link) => match attr(link, "href") {
                Some(address) => Some(replace(address, "http://http", "http")),
                None => None,
            },
            None => None,
        };
        match self.history(&page) {
            Ok(history) => Ok(TeamRosterData { steam_group, history }),
            Err(e) => Err(ScrapeError::Parse(e)),
        }
    }
}

} // verus!
