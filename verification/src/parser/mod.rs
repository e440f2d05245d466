//! One parser for each kind of page.
//!
//! A parser is made once, which compiles its selectors, and then reads any number of
//! documents. It changes nothing and keeps nothing: what it gives depends on the text of
//! the document alone.

pub mod map_history;
pub mod match_page;
pub mod player;
pub mod player_details;
pub mod seasons;
pub mod team;
pub mod team_lookup;
pub mod team_matches;
pub mod team_roster_history;
pub mod transactions;

pub use map_history::MapHistoryParser;
pub use match_page::MatchPageParser;
pub use player::PlayerParser;
pub use player_details::PlayerDetailsParser;
pub use seasons::SeasonsParser;
pub use team::TeamParser;
pub use team_lookup::TeamLookupParser;
pub use team_matches::TeamMatchesParser;
pub use team_roster_history::TeamRosterHistoryParser;
pub use transactions::TransactionParser;

use crate::error::{result_view, ScrapeError, ScrapeErrorView};
use vstd::prelude::*;

verus! {

/// The layout of most dates of the site: month, day and year between slashes.
pub const DATE_FORMAT: &'static str = "[month padding:none]/[day padding:none]/[year]";

/// The layout of the moment at which a member joined, on a clock of the east of North
/// America: the hour is one of the twelve of the half of the day that `AM` or `PM` names.
pub const MEMBER_DATE_FORMAT: &'static str =
    "[month repr:short] [day padding:none], [year] / [hour padding:none repr:12]:[minute] [period] (ET)";

/// The layout of the day on which a member joined, where the page shows a span of days.
pub const MEMBER_DATE_ALT_FORMAT: &'static str = "[month repr:short] [day padding:none], [year]";

/// The layout of the days of a roster's history.
pub const ROSTER_HISTORY_DATE_FORMAT: &'static str =
    "[month repr:short] [day padding:none], [year]";

/// What every parser does: it takes the text of a document and gives one record, or one
/// list of records, or the reason why the document holds none.
pub trait Parser {
    type Output: DeepView;

    /// What the page of this kind with the text `document` holds.
    spec fn page(&self, document: Seq<char>) -> Result<
        <Self::Output as DeepView>::V,
        ScrapeErrorView,
    >;

    /// Reads a document. The first part of it that is missing or malformed fails the whole:
    /// no record is given in part.
    fn parse(&self, document: &str) -> (r: Result<Self::Output, ScrapeError>)
        ensures
            result_view(r) == self.page(document@),
    ;
}

/// Reading the same text twice gives the same: two results of `parse` on one document
/// have one view.
pub proof fn lemma_parse_twice<P: Parser>(
    parser: P,
    document: Seq<char>,
    first: Result<P::Output, ScrapeError>,
    second: Result<P::Output, ScrapeError>,
)
    requires
        result_view(first) == parser.page(document),
        result_view(second) == parser.page(document),
    ensures
        result_view(first) == result_view(second),
{
}

} // verus!
