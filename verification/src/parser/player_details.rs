//! The page of the teams that a player is or was a member of.

use crate::collect::{
    collected, gathered, lemma_collected_all, lemma_gathered_holds, push_row, push_rows,
};
use crate::data::{MembershipHistory, MembershipHistoryView, TeamRef, TeamRefView};
use crate::date::{date_in_layout, DateFormat, DateView};
use crate::dom::{
    attr_or_default, attr_or_empty, first_text_of, first_under, matches_in, matches_under,
    selected_text, text_of, Document, Query,
};
use crate::error::{
    empty_text, invalid_date, invalid_link, not_found, result_view, whole, ParseError,
    ParseErrorView, ScrapeError, ScrapeErrorView,
};
use crate::links::{id_from_link, link_id};
use crate::parser::player::smaller;
use crate::parser::{Parser, DATE_FORMAT};
use crate::text::{or_empty, unwrap_or_empty};
use vstd::prelude::*;
use vstd::string::*;

verus! {

pub const SELECTOR_TEAM_FORMAT: &'static str = ".container .white-row-small thead h4";

pub const SELECTOR_TEAM_GROUP: &'static str = ".container .white-row-small tbody";

pub const TEAM_ROW: &'static str = "tr:not(:first-child)";

pub const SELECTOR_TEAM_LINK: &'static str = "td:nth-child(3) a";

pub const SELECTOR_TEAM_DIVISION: &'static str = "td:nth-child(3) small";

pub const SELECTOR_TEAM_JOINED: &'static str = "td:nth-child(5) span";

pub const SELECTOR_TEAM_LEFT: &'static str = "td:nth-child(6) span";

/// Reads the page of the history of a player's teams.
pub struct PlayerDetailsParser {
    selector_team_format: Query,
    selector_team_group: Query,
    selector_team_row: Query,
    selector_team_link: Query,
    selector_team_division: Query,
    selector_team_joined: Query,
    selector_team_left: Query,
    date_format: DateFormat,
}

impl PlayerDetailsParser {
    #[verifier::type_invariant]
    spec fn compiled(self) -> bool {
        &&& self.selector_team_format@ == SELECTOR_TEAM_FORMAT@
        &&& self.selector_team_group@ == SELECTOR_TEAM_GROUP@
        &&& self.selector_team_row@ == TEAM_ROW@
        &&& self.selector_team_link@ == SELECTOR_TEAM_LINK@
        &&& self.selector_team_division@ == SELECTOR_TEAM_DIVISION@
        &&& self.selector_team_joined@ == SELECTOR_TEAM_JOINED@
        &&& self.selector_team_left@ == SELECTOR_TEAM_LEFT@
        &&& self.date_format@ == DATE_FORMAT@
    }

    /// Whether the selectors and the layouts of dates of this parser are what they are meant to be.
    pub open spec fn selectors_compile() -> bool {
        &&& Query::is_selector(SELECTOR_TEAM_FORMAT@)
        &&& Query::is_selector(SELECTOR_TEAM_GROUP@)
        &&& Query::is_selector(TEAM_ROW@)
        &&& Query::is_selector(SELECTOR_TEAM_LINK@)
        &&& Query::is_selector(SELECTOR_TEAM_DIVISION@)
        &&& Query::is_selector(SELECTOR_TEAM_JOINED@)
        &&& Query::is_selector(SELECTOR_TEAM_LEFT@)
        &&& DateFormat::is_layout(DATE_FORMAT@)
    }

    /// Compiles the selectors and the layouts of dates; nothing where one of them does not compile.
    pub fn new() -> (r: Option<PlayerDetailsParser>)
        ensures
            r is Some <==> PlayerDetailsParser::selectors_compile(),
    {
        let selector_team_format = match Query::compile(SELECTOR_TEAM_FORMAT) {
            Some(query) => query,
            None => {
                return None;
            },
        };
        let selector_team_group = match Query::compile(SELECTOR_TEAM_GROUP) {
            Some(query) => query,
            None => {
                return None;
            },
        };
        let selector_team_row = match Query::compile(TEAM_ROW) {
            Some(query) => query,
            None => {
                return None;
            },
        };
        let selector_team_link = match Query::compile(SELECTOR_TEAM_LINK) {
            Some(query) => query,
            None => {
                return None;
            },
        };
        let selector_team_division = match Query::compile(SELECTOR_TEAM_DIVISION) {
            Some(query) => query,
            None => {
                return None;
            },
        };
        let selector_team_joined = match Query::compile(SELECTOR_TEAM_JOINED) {
            Some(query) => query,
            None => {
                return None;
            },
        };
        let selector_team_left = match Query::compile(SELECTOR_TEAM_LEFT) {
            Some(query) => query,
            None => {
                return None;
            },
        };
        let date_format = match DateFormat::compile(DATE_FORMAT) {
            Some(format) => format,
            None => {
                return None;
            },
        };
        Some(
            PlayerDetailsParser {
                selector_team_format,
                selector_team_group,
                selector_team_row,
                selector_team_link,
                selector_team_division,
                selector_team_joined,
                selector_team_left,
                date_format,
            },
        )
    }
}

/// Whether there is a day of leaving and it is before the day of joining.
pub open spec fn left_before_joining(joined: DateView, left: Option<DateView>) -> bool {
    left is Some && !joined.on_or_before(left->0)
}

/// Whether a team of the history was left on the day of joining or later, if it was left
/// at all.
pub open spec fn left_after_joining(entry: MembershipHistoryView) -> bool {
    entry.left is None || entry.joined.on_or_before(entry.left->0)
}

/// One team of the history, from the parts of its row: the heading of the table that
/// the row stands in, which names the game mode; the address of the link to the team,
/// where the row has such a link; and the texts of the name of the team, of its division,
/// of the day of joining and of the day of leaving.
///
/// All but the day of leaving have to be there. A day of leaving that is missing, or that
/// is no day, means that the player is still a member. Nobody leaves before joining: a
/// day of leaving before the day of joining is no day of leaving of this row, and fails
/// it. The days are read in the layout `days`.
pub open spec fn history_of(
    format: Option<Seq<char>>,
    address: Option<Seq<char>>,
    name: Option<Seq<char>>,
    division: Option<Seq<char>>,
    joined: Option<Seq<char>>,
    left: Option<Seq<char>>,
    days: Seq<char>,
) -> Result<MembershipHistoryView, ParseErrorView> {
    if format is None {
        Err(empty_text(SELECTOR_TEAM_FORMAT@, "team format"@))
    } else if address is None {
        Err(not_found(SELECTOR_TEAM_LINK@, "team link"@))
    } else if name is None {
        Err(not_found(SELECTOR_TEAM_LINK@, "team link"@))
    } else if division is None {
        Err(not_found(SELECTOR_TEAM_DIVISION@, "team division"@))
    } else if joined is None {
        Err(not_found(SELECTOR_TEAM_JOINED@, "team join date"@))
    } else if link_id(address->0) is None {
        Err(invalid_link(address->0, "team id"@))
    } else if date_in_layout(joined->0, days) is None {
        Err(invalid_date(joined->0, "team join date"@))
    } else if left_before_joining(
        date_in_layout(joined->0, days)->0,
        date_in_layout(or_empty(left), days),
    ) {
        Err(invalid_date(or_empty(left), "team leave date"@))
    } else {
        Ok(
            MembershipHistoryView {
                format: format->0,
                team: TeamRefView { name: name->0, id: link_id(address->0)->0 },
                division: division->0,
                joined: date_in_layout(joined->0, days)->0,
                left: date_in_layout(or_empty(left), days),
            },
        )
    }
}

/// One team of the history, from the parts of its row.
pub fn history_from_cells(
    format: Option<&str>,
    address: Option<&str>,
    name: Option<&str>,
    division: Option<&str>,
    joined: Option<&str>,
    left: Option<&str>,
    days: &DateFormat,
) -> (r: Result<MembershipHistory, ParseError>)
    ensures
        result_view(r) == history_of(
            format.deep_view(),
            address.deep_view(),
            name.deep_view(),
            division.deep_view(),
            joined.deep_view(),
            left.deep_view(),
            days@,
        ),
        r matches Ok(entry) ==> left_after_joining(entry.deep_view()),
{
    let format = match format {
        Some(format) => format,
        None => {
            return Err(ParseError::no_text(SELECTOR_TEAM_FORMAT, "team format"));
        },
    };
    let address = match address {
        Some(address) => address,
        None => {
            return Err(ParseError::element_not_found(SELECTOR_TEAM_LINK, "team link"));
        },
    };
    let name = match name {
        Some(name) => name,
        None => {
            return Err(ParseError::element_not_found(SELECTOR_TEAM_LINK, "team link"));
        },
    };
    let division = match division {
        Some(division) => division,
        None => {
            return Err(ParseError::element_not_found(SELECTOR_TEAM_DIVISION, "team division"));
        },
    };
    let joined = match joined {
        Some(joined) => joined,
        None => {
            return Err(ParseError::element_not_found(SELECTOR_TEAM_JOINED, "team join date"));
        },
    };
    let id = match id_from_link(address) {
        Some(id) => id,
        None => {
            return Err(ParseError::bad_link(address, "team id"));
        },
    };
    let joined = match days.parse(joined) {
        Some(day) => day,
        None => {
            return Err(ParseError::bad_date(joined, "team join date"));
        },
    };
    let left = match days.parse(unwrap_or_empty(left)) {
        Some(day) => {
            if !joined.on_or_before(&day) {
                return Err(ParseError::bad_date(unwrap_or_empty(left), "team leave date"));
            }
            Some(day)
        },
        None => None,
    };
    Ok(
        MembershipHistory {
            format: format.to_owned(),
            team: TeamRef { name: name.to_owned(), id },
            division: division.to_owned(),
            joined,
            left,
        },
    )
}

/// The address of the link to the team of a row, where the row has such a link.
pub open spec fn team_address(row: scraper::ElementRef) -> Option<Seq<char>> {
    match first_under(row, SELECTOR_TEAM_LINK@) {
        Some(link) => Some(attr_or_empty(link, "href"@)),
        None => None,
    }
}

/// The team of one row of a table, under the heading of the table.
pub open spec fn history_of_row(format: Option<Seq<char>>, row: scraper::ElementRef) -> Result<
    MembershipHistoryView,
    ParseErrorView,
> {
    history_of(
        format,
        team_address(row),
        selected_text(row, SELECTOR_TEAM_LINK@),
        selected_text(row, SELECTOR_TEAM_DIVISION@),
        selected_text(row, SELECTOR_TEAM_JOINED@),
        selected_text(row, SELECTOR_TEAM_LEFT@),
        DATE_FORMAT@,
    )
}

/// The teams of one table, row by row, under the heading of the table.
pub open spec fn table_rows(heading: scraper::ElementRef, table: scraper::ElementRef) -> Seq<
    Result<MembershipHistoryView, ParseErrorView>,
> {
    matches_under(table, TEAM_ROW@).map_values(
        |row: scraper::ElementRef| history_of_row(text_of(heading), row),
    )
}

/// The teams of a page, table by table: the headings and the tables of the page are
/// taken in step, as far as the shorter of the two lists goes.
pub open spec fn tables(document: Seq<char>) -> Seq<
    Result<Seq<MembershipHistoryView>, ParseErrorView>,
> {
    let headings = matches_in(document, SELECTOR_TEAM_FORMAT@);
    let bodies = matches_in(document, SELECTOR_TEAM_GROUP@);
    Seq::new(
        smaller(headings.len() as int, bodies.len() as int) as nat,
        |i: int| collected(table_rows(headings[i], bodies[i])),
    )
}

/// The history of a player: the teams of all the tables of the page, in the order in
/// which tables and rows are yielded. The first row that is missing a part or holds a
/// malformed one fails the page. No team is left before it is joined.
pub open spec fn details_page(document: Seq<char>) -> Result<
    Seq<MembershipHistoryView>,
    ScrapeErrorView,
> {
    whole(gathered(tables(document)))
}

/// Every team of the history of a page that reads was left on the day of joining or
/// later, if it was left at all.
pub proof fn lemma_left_after_joining(document: Seq<char>, i: int)
    requires
        details_page(document) is Ok,
        0 <= i < details_page(document)->Ok_0.len(),
    ensures
        left_after_joining(details_page(document)->Ok_0[i]),
{
    let lists = tables(document);
    lemma_gathered_holds(lists, i);
    let (k, j) = choose|k: int, j: int|
        0 <= k < lists.len() && (#[trigger] lists[k]) is Ok && 0 <= j < lists[k]->Ok_0.len() && (
        #[trigger] lists[k]->Ok_0[j]) == gathered(lists)->Ok_0[i];
    let headings = matches_in(document, SELECTOR_TEAM_FORMAT@);
    let bodies = matches_in(document, SELECTOR_TEAM_GROUP@);
    let rows = table_rows(headings[k], bodies[k]);
    assert(lists[k] == collected(rows));
    lemma_collected_all(rows);
    assert(rows[j] == Ok::<MembershipHistoryView, ParseErrorView>(lists[k]->Ok_0[j]));
}

impl PlayerDetailsParser {
    #[verifier::loop_isolation(false)]
    fn table(&self, heading: scraper::ElementRef, table: scraper::ElementRef) -> (r: Result<
        Vec<MembershipHistory>,
        ParseError,
    >)
        ensures
            result_view(r) == collected(table_rows(heading, table)),
    {
        proof {
            use_type_invariant(self);
        }
        let rows = self.selector_team_row.select(table);
        let ghost items = table_rows(heading, table);
        let mut out: Vec<MembershipHistory> = Vec::new();
        let mut i: usize = 0;
        assert(items.take(0) =~= Seq::empty());
        assert(out.deep_view() =~= Seq::empty());
        while i < rows.len()
            invariant
                i <= rows.len(),
                collected(items.take(i as int)) == Ok::<
                    Seq<MembershipHistoryView>,
                    ParseErrorView,
                >(out.deep_view()),
            decreases rows.len() - i,
        {
            let row = rows[i];
            let address = match self.selector_team_link.first(row) {
                Some(link) => Some(attr_or_default(link, "href")),
                None => None,
            };
            let team = history_from_cells(
                first_text_of(heading),
                address,
                self.selector_team_link.select_text(row),
                self.selector_team_division.select_text(row),
                self.selector_team_joined.select_text(row),
                self.selector_team_left.select_text(row),
                &self.date_format,
            );
            match push_row(&mut out, team, Ghost(items), Ghost(i as int)) {
                Ok(_) => {},
                Err(e) => {
                    return Err(e);
                },
            }
            i += 1;
        }
        assert(items.take(i as int) =~= items);
        Ok(out)
    }
}

impl Parser for PlayerDetailsParser {
    type Output = Vec<MembershipHistory>;

    open spec fn page(&self, document: Seq<char>) -> Result<
        Seq<MembershipHistoryView>,
        ScrapeErrorView,
    > {
        details_page(document)
    }

    #[verifier::loop_isolation(false)]
    fn parse(&self, document: &str) -> (r: Result<Vec<MembershipHistory>, ScrapeError>)
        ensures
            r matches Ok(history) ==> forall|i: int|
                0 <= i < history.deep_view().len() ==> left_after_joining(
                    #[trigger] history.deep_view()[i],
                ),
    {
        proof {
            use_type_invariant(self);
        }
        let page = Document::parse(document);
        let headings = page.select(&self.selector_team_format);
        let bodies = page.select(&self.selector_team_group);
        let count: usize = if headings.len() <= bodies.len() {
            headings.len()
        } else {
            bodies.len()
        };
        let ghost lists = tables(document@);
        let mut out: Vec<MembershipHistory> = Vec::new();
        let mut i: usize = 0;
        assert(lists.take(0) =~= Seq::empty());
        assert(out.deep_view() =~= Seq::empty());
        while i < count
            invariant
                i <= count,
                count == lists.len(),
                gathered(lists.take(i as int)) == Ok::<Seq<MembershipHistoryView>, ParseErrorView>(
                    out.deep_view(),
                ),
            decreases count - i,
        {
            let teams = self.table(headings[i], bodies[i]);
            match push_rows(&mut out, teams, Ghost(lists), Ghost(i as int)) {
                Ok(_) => {},
                Err(e) => {
                    return Err(ScrapeError::Parse(e));
                },
            }
            i += 1;
        }
        assert(lists.take(i as int) =~= lists);
        proof {
            assert(details_page(document@) == Ok::<Seq<MembershipHistoryView>, ScrapeErrorView>(
                out.deep_view(),
            ));
            assert forall|i: int| 0 <= i < out.deep_view().len() implies left_after_joining(
                #[trigger] out.deep_view()[i],
            ) by {
                lemma_left_after_joining(document@, i);
            }
        }
        Ok(out)
    }
}

} // verus!
