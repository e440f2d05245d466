//! The list of the teams of one game mode.

use crate::collect::{collected, push_row};
use crate::data::{TeamRef, TeamRefView};
use crate::dom::{
    attr, element_attr, first_in, first_text_of, matches_under, text_of, Document, Query,
};
use crate::error::{
    empty_text, invalid_link, not_found, result_view, whole, ParseError, ParseErrorView,
    ScrapeError, ScrapeErrorView,
};
use crate::links::{link_id, team_id_from_link};
use crate::parser::Parser;
use crate::text::{split_first, split_once, trim, trimmed, CharSet};
use vstd::prelude::*;
use vstd::string::*;

verus! {

pub const SELECTOR_SELECT: &'static str = "select[name=\"clan_select\"]";

pub const SELECTOR_OPTION: &'static str = "option[value^=\"team_page\"]";

/// Reads the list from which a visitor picks a team.
pub struct TeamLookupParser {
    selector_select: Query,
    selector_option: Query,
}

/// What follows the first `-` of an entry of the list, trimmed: the name of the team. An
/// entry without `-` names none.
pub open spec fn listed_name(text: Seq<char>) -> Seq<char> {
    match split_first(text, CharSet::One('-')) {
        Some((_, name)) => trimmed(name),
        None => Seq::empty(),
    }
}

/// The team of one entry of the list, from the link that the entry stands for and from
/// its text.
pub open spec fn listed_team(link: Option<Seq<char>>, text: Option<Seq<char>>) -> Result<
    TeamRefView,
    ParseErrorView,
> {
    match link {
        None => Err(empty_text(SELECTOR_OPTION@, "team link"@)),
        Some(link) => match text {
            None => Err(empty_text(SELECTOR_OPTION@, "team name"@)),
            Some(text) => match link_id(link) {
                None => Err(invalid_link(link, "team id"@)),
                Some(id) => Ok(TeamRefView { id, name: listed_name(text) }),
            },
        },
    }
}

/// The team of one entry of the list.
pub open spec fn team_of_entry(entry: scraper::ElementRef) -> Result<TeamRefView, ParseErrorView> {
    listed_team(element_attr(entry, "value"@), text_of(entry))
}

/// The teams of a lookup page.
pub open spec fn lookup_page(document: Seq<char>) -> Result<Seq<TeamRefView>, ScrapeErrorView> {
    match first_in(document, SELECTOR_SELECT@) {
        None => Err(ScrapeErrorView::Parse(not_found(SELECTOR_SELECT@, "team list"@))),
        Some(select) => whole(
            collected(
                matches_under(select, SELECTOR_OPTION@).map_values(
                    |entry: scraper::ElementRef| team_of_entry(entry),
                ),
            ),
        ),
    }
}

/// The team of one entry of the list, from the link that the entry stands for and from
/// its text.
pub fn team_from_entry(link: Option<&str>, text: Option<&str>) -> (r: Result<TeamRef, ParseError>)
    ensures
        result_view(r) == listed_team(link.deep_view(), text.deep_view()),
{
    let link = match link {
        Some(link) => link,
        None => {
            return Err(ParseError::no_text(SELECTOR_OPTION, "team link"));
        },
    };
    let text = match text {
        Some(text) => text,
        None => {
            return Err(ParseError::no_text(SELECTOR_OPTION, "team name"));
        },
    };
    let name = match split_once(text, CharSet::One('-')) {
        Some((_, name)) => trim(name).to_owned(),
        None => String::new(),
    };
    let id = team_id_from_link(link)?;
    Ok(TeamRef { id, name })
}

impl TeamLookupParser {
    #[verifier::type_invariant]
    spec fn compiled(self) -> bool {
        self.selector_select@ == SELECTOR_SELECT@ && self.selector_option@ == SELECTOR_OPTION@
    }

    /// Whether the selectors of this parser are selectors.
    pub open spec fn selectors_compile() -> bool {
        Query::is_selector(SELECTOR_SELECT@) && Query::is_selector(SELECTOR_OPTION@)
    }

    /// Compiles the selectors; nothing where one of them is no selector.
    pub fn new() -> (r: Option<TeamLookupParser>)
        ensures
            r is Some <==> TeamLookupParser::selectors_compile(),
    {
        let selector_select = Query::compile(SELECTOR_SELECT);
        let selector_option = Query::compile(SELECTOR_OPTION);
        match (selector_select, selector_option) {
            (Some(selector_select), Some(selector_option)) => Some(
                TeamLookupParser { selector_select, selector_option },
            ),
            _ => None,
        }
    }

    fn entry<'a>(&self, entry: scraper::ElementRef<'a>) -> (r: Result<TeamRef, ParseError>)
        ensures
            result_view(r) == team_of_entry(entry),
    {
        team_from_entry(attr(entry, "value"), first_text_of(entry))
    }
}

impl Parser for TeamLookupParser {
    type Output = Vec<TeamRef>;

    open spec fn page(&self, document: Seq<char>) -> Result<Seq<TeamRefView>, ScrapeErrorView> {
        lookup_page(document)
    }

    #[verifier::loop_isolation(false)]
    fn parse(&self, document: &str) -> (r: Result<Vec<TeamRef>, ScrapeError>) {
        proof {
            use_type_invariant(self);
        }
        let document = Document::parse(document);
        let select = match document.first(&self.selector_select) {
            Some(select) => select,
            None => {
                return Err(
                    ScrapeError::Parse(ParseError::element_not_found(SELECTOR_SELECT, "team list")),
                );
            },
        };
        let entries = self.selector_option.select(select);
        let ghost items = matches_under(select, SELECTOR_OPTION@).map_values(
            |entry: scraper::ElementRef| team_of_entry(entry),
        );
        let mut teams: Vec<TeamRef> = Vec::new();
        let mut i: usize = 0;
        assert(items.take(0) =~= Seq::empty());
        assert(teams.deep_view() =~= Seq::empty());
        while i < entries.len()
            invariant
                i <= entries.len(),
                collected(items.take(i as int)) == Ok::<Seq<TeamRefView>, ParseErrorView>(
                    teams.deep_view(),
                ),
            decreases entries.len() - i,
        {
            let team = self.entry(entries[i]);
            match push_row(&mut teams, team, Ghost(items), Ghost(i as int)) {
                Ok(_) => {},
                Err(e) => {
                    return Err(ScrapeError::Parse(e));
                },
            }
            i += 1;
        }
        assert(items.take(i as int) =~= items);
        Ok(teams)
    }
}

} // verus!
