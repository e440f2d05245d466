//! The page of one match.

use crate::data::{MatchInfo, MatchInfoView, TeamRef, TeamRefView};
use crate::dom::{
    attr_or_default, attr_or_empty, first_text_of, matches_in, root_of, selected_last_text,
    selected_text, text_of, Document, Query,
};
use crate::error::{
    empty_text, invalid_link, invalid_text, not_found, result_view, whole, ParseError,
    ParseErrorView, ScrapeError, ScrapeErrorView,
};
use crate::links::{id_from_link, link_id};
use crate::number::{parse_u8, parse_week, parsed_u8, parsed_week};
use crate::parser::team_matches::{first_mode_word, mode_in_title};
use crate::parser::Parser;
use crate::vocabulary::GameMode;
use vstd::prelude::*;
use vstd::string::*;

verus! {

pub const SELECTOR_MATCH_FORMAT: &'static str = "h3.page-header > strong.styleColor";

pub const SELECTOR_MATCH_COMMENT_AUTHOR: &'static str = ".row-fluid .col-md-12 span.text-success";

pub const SELECTOR_MATCH_COMMENT: &'static str =
    ".row-fluid .col-md-12 > .white-row-light-small > p";

pub const SELECTOR_MATCH_TEAM_LINK: &'static str = "a[href^=\"team_page\"]:not(.btn-large)";

pub const SELECTOR_MATCH_RESULT_TEAM: &'static str =
    ".table.table-condensed.table-bordered tr:nth-child(2) td:nth-child(1)";

pub const SELECTOR_MATCH_RESULT_SCORE: &'static str =
    ".table.table-condensed.table-bordered tr:nth-child(2) td:nth-child(2)";

pub const SELECTOR_MATCH_MAP: &'static str = "h4.text-success.text-center > b";

pub const SELECTOR_MATCH_WEEK: &'static str =
    "p.muted.text-center.nomargin > small > b:nth-child(1)";

pub const SELECTOR_MATCH_DATE: &'static str =
    "p.muted.text-center.nomargin > small > b:nth-child(2)";

/// Reads the page of one match.
pub struct MatchPageParser {
    selector_format: Query,
    selector_author: Query,
    selector_comment: Query,
    selector_team_link: Query,
    selector_result_team: Query,
    selector_result_score: Query,
    selector_map: Query,
    selector_week: Query,
    selector_date: Query,
}

impl MatchPageParser {
    #[verifier::type_invariant]
    spec fn compiled(self) -> bool {
        &&& self.selector_format@ == SELECTOR_MATCH_FORMAT@
        &&& self.selector_author@ == SELECTOR_MATCH_COMMENT_AUTHOR@
        &&& self.selector_comment@ == SELECTOR_MATCH_COMMENT@
        &&& self.selector_team_link@ == SELECTOR_MATCH_TEAM_LINK@
        &&& self.selector_result_team@ == SELECTOR_MATCH_RESULT_TEAM@
        &&& self.selector_result_score@ == SELECTOR_MATCH_RESULT_SCORE@
        &&& self.selector_map@ == SELECTOR_MATCH_MAP@
        &&& self.selector_week@ == SELECTOR_MATCH_WEEK@
        &&& self.selector_date@ == SELECTOR_MATCH_DATE@
    }

    /// Whether the selectors of this parser are what they are meant to be.
    pub open spec fn selectors_compile() -> bool {
        &&& Query::is_selector(SELECTOR_MATCH_FORMAT@)
        &&& Query::is_selector(SELECTOR_MATCH_COMMENT_AUTHOR@)
        &&& Query::is_selector(SELECTOR_MATCH_COMMENT@)
        &&& Query::is_selector(SELECTOR_MATCH_TEAM_LINK@)
        &&& Query::is_selector(SELECTOR_MATCH_RESULT_TEAM@)
        &&& Query::is_selector(SELECTOR_MATCH_RESULT_SCORE@)
        &&& Query::is_selector(SELECTOR_MATCH_MAP@)
        &&& Query::is_selector(SELECTOR_MATCH_WEEK@)
        &&& Query::is_selector(SELECTOR_MATCH_DATE@)
    }

    /// Compiles the selectors; nothing where one of them does not compile.
    pub fn new() -> (r: Option<MatchPageParser>)
        ensures
            r is Some <==> MatchPageParser::selectors_compile(),
    {
        let selector_format = match Query::compile(SELECTOR_MATCH_FORMAT) {
            Some(query) => query,
            None => {
                return None;
            },
        };
        let selector_author = match Query::compile(SELECTOR_MATCH_COMMENT_AUTHOR) {
            Some(query) => query,
            None => {
                return None;
            },
        };
        let selector_comment = match Query::compile(SELECTOR_MATCH_COMMENT) {
            Some(query) => query,
            None => {
                return None;
            },
        };
        let selector_team_link = match Query::compile(SELECTOR_MATCH_TEAM_LINK) {
            Some(query) => query,
            None => {
                return None;
            },
        };
        let selector_result_team = match Query::compile(SELECTOR_MATCH_RESULT_TEAM) {
            Some(query) => query,
            None => {
                return None;
            },
        };
        let selector_result_score = match Query::compile(SELECTOR_MATCH_RESULT_SCORE) {
            Some(query) => query,
            None => {
                return None;
            },
        };
        let selector_map = match Query::compile(SELECTOR_MATCH_MAP) {
            Some(query) => query,
            None => {
                return None;
            },
        };
        let selector_week = match Query::compile(SELECTOR_MATCH_WEEK) {
            Some(query) => query,
            None => {
                return None;
            },
        };
        let selector_date = match Query::compile(SELECTOR_MATCH_DATE) {
            Some(query) => query,
            None => {
                return None;
            },
        };
        Some(
            MatchPageParser {
                selector_format,
                selector_author,
                selector_comment,
                selector_team_link,
                selector_result_team,
                selector_result_score,
                selector_map,
                selector_week,
                selector_date,
            },
        )
    }
}

/// The game mode that a heading names: that which the whole heading spells, or else that
/// of its first word that spells one.
pub open spec fn heading_mode(heading: Seq<char>) -> Option<GameMode> {
    match GameMode::spelled_by(heading) {
        Some(mode) => Some(mode),
        None => first_mode_word(heading),
    }
}

/// The game mode that a heading names.
pub fn mode_of_heading(heading: &str) -> (r: Option<GameMode>)
    ensures
        r == heading_mode(heading@),
{
    match GameMode::from_str(heading) {
        Ok(mode) => Some(mode),
        Err(_) => mode_in_title(heading),
    }
}

/// The numbers of the home team and of the away team, from the addresses of the links
/// to them.
pub open spec fn team_ids(home_link: Option<Seq<char>>, away_link: Option<Seq<char>>) -> Result<
    (u32, u32),
    ParseErrorView,
> {
    if home_link is None {
        Err(not_found(SELECTOR_MATCH_TEAM_LINK@, "home team link"@))
    } else if away_link is None {
        Err(not_found(SELECTOR_MATCH_TEAM_LINK@, "away team link"@))
    } else if link_id(home_link->0) is None {
        Err(invalid_link(home_link->0, "team id"@))
    } else if link_id(away_link->0) is None {
        Err(invalid_link(away_link->0, "team id"@))
    } else {
        Ok((link_id(home_link->0)->0, link_id(away_link->0)->0))
    }
}

/// The numbers of the home team and of the away team, from the addresses of the links
/// to them.
pub fn team_ids_from_links(home_link: Option<&str>, away_link: Option<&str>) -> (r: Result<
    (u32, u32),
    ParseError,
>)
    ensures
        result_view(r) == team_ids(home_link.deep_view(), away_link.deep_view()),
{
    let home_link = match home_link {
        Some(link) => link,
        None => {
            return Err(ParseError::element_not_found(SELECTOR_MATCH_TEAM_LINK, "home team link"));
        },
    };
    let away_link = match away_link {
        Some(link) => link,
        None => {
            return Err(ParseError::element_not_found(SELECTOR_MATCH_TEAM_LINK, "away team link"));
        },
    };
    let home_id = match id_from_link(home_link) {
        Some(id) => id,
        None => {
            return Err(ParseError::bad_link(home_link, "team id"));
        },
    };
    let away_id = match id_from_link(away_link) {
        Some(id) => id,
        None => {
            return Err(ParseError::bad_link(away_link, "team id"));
        },
    };
    Ok((home_id, away_id))
}

/// The game mode and the week of a match, from the texts of the two. Weeks are counted
/// from 1.
pub open spec fn mode_and_week(format: Option<Seq<char>>, map: Option<Seq<char>>, week: Option<
    Seq<char>,
>) -> Result<(GameMode, u8), ParseErrorView> {
    if format is None {
        Err(not_found(SELECTOR_MATCH_FORMAT@, "match format"@))
    } else if heading_mode(format->0) is None {
        Err(invalid_text(format->0, "match format"@))
    } else if map is None {
        Err(not_found(SELECTOR_MATCH_MAP@, "match map"@))
    } else if week is None {
        Err(not_found(SELECTOR_MATCH_WEEK@, "match week"@))
    } else if parsed_week(week->0) is None {
        Err(invalid_text(week->0, "match week"@))
    } else {
        Ok((heading_mode(format->0)->0, parsed_week(week->0)->0))
    }
}

/// The game mode and the week of a match, from the texts of the two. The map has to be
/// there too: it is looked for between them.
pub fn mode_and_week_from(format: Option<&str>, map: Option<&str>, week: Option<&str>) -> (r:
    Result<(GameMode, u8), ParseError>)
    ensures
        result_view(r) == mode_and_week(format.deep_view(), map.deep_view(), week.deep_view()),
{
    let format = match format {
        Some(format) => format,
        None => {
            return Err(ParseError::element_not_found(SELECTOR_MATCH_FORMAT, "match format"));
        },
    };
    let mode = match mode_of_heading(format) {
        Some(mode) => mode,
        None => {
            return Err(ParseError::bad_text(format, "match format"));
        },
    };
    if map.is_none() {
        return Err(ParseError::element_not_found(SELECTOR_MATCH_MAP, "match map"));
    }
    let week = match week {
        Some(week) => week,
        None => {
            return Err(ParseError::element_not_found(SELECTOR_MATCH_WEEK, "match week"));
        },
    };
    match parse_week(week) {
        Some(number) => Ok((mode, number)),
        None => Err(ParseError::bad_text(week, "match week")),
    }
}

/// The text of a cell of the table of results: the cell has to be there and to hold text.
pub open spec fn cell_text(cell: Option<Option<Seq<char>>>, selector: Seq<char>, role: Seq<char>) -> Result<
    Seq<char>,
    ParseErrorView,
> {
    match cell {
        None => Err(not_found(selector, role)),
        Some(None) => Err(empty_text(selector, role)),
        Some(Some(text)) => Ok(text),
    }
}

/// The text of a cell of the table of results.
pub fn text_of_result<'a>(
    cell: Option<Option<&'a str>>,
    selector: &'static str,
    role: &'static str,
) -> (r: Result<&'a str, ParseError>)
    ensures
        result_view(r) == cell_text(cell.deep_view(), selector@, role@),
{
    match cell {
        None => Err(ParseError::element_not_found(selector, role)),
        Some(None) => Err(ParseError::no_text(selector, role)),
        Some(Some(text)) => Ok(text),
    }
}

/// The score of a cell of the table of results.
pub open spec fn cell_score(cell: Option<Option<Seq<char>>>, role: Seq<char>) -> Result<
    u8,
    ParseErrorView,
> {
    match cell_text(cell, SELECTOR_MATCH_RESULT_SCORE@, role) {
        Err(e) => Err(e),
        Ok(text) => match parsed_u8(text) {
            Some(score) => Ok(score),
            None => Err(invalid_text(text, role)),
        },
    }
}

/// The score of a cell of the table of results.
pub fn score_of_result(cell: Option<Option<&str>>, role: &'static str) -> (r: Result<
    u8,
    ParseError,
>)
    ensures
        result_view(r) == cell_score(cell.deep_view(), role@),
{
    let text = text_of_result(cell, SELECTOR_MATCH_RESULT_SCORE, role)?;
    match parse_u8(text) {
        Some(score) => Ok(score),
        None => Err(ParseError::bad_text(text, role)),
    }
}

/// A match, from the parts of its page: the texts of the author of the comment and of
/// the comment; the addresses of the links to the home team and to the away team; the
/// texts of game mode, map, week and day; and, for each of the two teams, the text of
/// its name and of its score in the table of results. A part is `None` where the page
/// has no element for it; a name or a score is `Some(None)` where its cell holds no text.
///
/// All but the comment and its author have to be there. They are looked at in this
/// order, and the first that fails, fails the page: the links, the numbers at their
/// ends, game mode, map, week, day, the names and the scores.
pub open spec fn match_of(
    author: Option<Seq<char>>,
    comment: Option<Seq<char>>,
    home_link: Option<Seq<char>>,
    away_link: Option<Seq<char>>,
    format: Option<Seq<char>>,
    map: Option<Seq<char>>,
    week: Option<Seq<char>>,
    date: Option<Seq<char>>,
    home_name: Option<Option<Seq<char>>>,
    away_name: Option<Option<Seq<char>>>,
    home_score: Option<Option<Seq<char>>>,
    away_score: Option<Option<Seq<char>>>,
) -> Result<MatchInfoView, ParseErrorView> {
    let ids = team_ids(home_link, away_link);
    let heading = mode_and_week(format, map, week);
    let home = cell_text(home_name, SELECTOR_MATCH_RESULT_TEAM@, "home team name"@);
    let away = cell_text(away_name, SELECTOR_MATCH_RESULT_TEAM@, "away team name"@);
    let home_goals = cell_score(home_score, "home team score"@);
    let away_goals = cell_score(away_score, "away team score"@);
    if ids is Err {
        Err(ids->Err_0)
    } else if heading is Err {
        Err(heading->Err_0)
    } else if date is None {
        Err(not_found(SELECTOR_MATCH_DATE@, "match date"@))
    } else if home is Err {
        Err(home->Err_0)
    } else if away is Err {
        Err(away->Err_0)
    } else if home_goals is Err {
        Err(home_goals->Err_0)
    } else if away_goals is Err {
        Err(away_goals->Err_0)
    } else {
        Ok(
            MatchInfoView {
                comment,
                comment_author: author,
                team_home: TeamRefView { name: home->Ok_0, id: ids->Ok_0.0 },
                team_away: TeamRefView { name: away->Ok_0, id: ids->Ok_0.1 },
                score_home: home_goals->Ok_0,
                score_away: away_goals->Ok_0,
                map: map->0,
                week: heading->Ok_0.1,
                format: heading->Ok_0.0,
                default_date: date->0,
            },
        )
    }
}

/// A match, from the parts of its page.
pub fn match_from_parts(
    author: Option<&str>,
    comment: Option<&str>,
    home_link: Option<&str>,
    away_link: Option<&str>,
    format: Option<&str>,
    map: Option<&str>,
    week: Option<&str>,
    date: Option<&str>,
    home_name: Option<Option<&str>>,
    away_name: Option<Option<&str>>,
    home_score: Option<Option<&str>>,
    away_score: Option<Option<&str>>,
) -> (r: Result<MatchInfo, ParseError>)
    ensures
        result_view(r) == match_of(
            author.deep_view(),
            comment.deep_view(),
            home_link.deep_view(),
            away_link.deep_view(),
            format.deep_view(),
            map.deep_view(),
            week.deep_view(),
            date.deep_view(),
            home_name.deep_view(),
            away_name.deep_view(),
            home_score.deep_view(),
            away_score.deep_view(),
        ),
{
    let (home_id, away_id) = team_ids_from_links(home_link, away_link)?;
    let (format, week) = mode_and_week_from(format, map, week)?;
    let date = match date {
        Some(date) => date,
        None => {
            return Err(ParseError::element_not_found(SELECTOR_MATCH_DATE, "match date"));
        },
    };
    let home_name = text_of_result(home_name, SELECTOR_MATCH_RESULT_TEAM, "home team name")?;
    let away_name = text_of_result(away_name, SELECTOR_MATCH_RESULT_TEAM, "away team name")?;
    let score_home = score_of_result(home_score, "home team score")?;
    let score_away = score_of_result(away_score, "away team score")?;
    Ok(
        MatchInfo {
            comment: match comment {
                Some(comment) => Some(comment.to_owned()),
                None => None,
            },
            comment_author: match author {
                Some(author) => Some(author.to_owned()),
                None => None,
            },
            team_home: TeamRef { name: home_name.to_owned(), id: home_id },
            team_away: TeamRef { name: away_name.to_owned(), id: away_id },
            score_home,
            score_away,
            map: crate::text::unwrap_or_empty(map).to_owned(),
            week,
            format,
            default_date: date.to_owned(),
        },
    )
}

/// The address of the link at the place `i` of `links`, where there is one.
pub open spec fn address_at(links: Seq<scraper::ElementRef<'static>>, i: int) -> Option<
    Seq<char>,
> {
    if 0 <= i < links.len() {
        Some(attr_or_empty(links[i], "href"@))
    } else {
        None
    }
}

/// The first text of the cell at the place `i` of `cells`, where there is such a cell.
pub open spec fn text_at(cells: Seq<scraper::ElementRef<'static>>, i: int) -> Option<
    Option<Seq<char>>,
> {
    if 0 <= i < cells.len() {
        Some(text_of(cells[i]))
    } else {
        None
    }
}

/// The match of a page. The first two links to teams are those to the home team and to
/// the away team; the first two cells of names and of scores are theirs, in that order.
pub open spec fn match_page(document: Seq<char>) -> Result<MatchInfoView, ScrapeErrorView> {
    let root = root_of(document);
    let links = matches_in(document, SELECTOR_MATCH_TEAM_LINK@);
    let names = matches_in(document, SELECTOR_MATCH_RESULT_TEAM@);
    let scores = matches_in(document, SELECTOR_MATCH_RESULT_SCORE@);
    whole(
        match_of(
            selected_text(root, SELECTOR_MATCH_COMMENT_AUTHOR@),
            selected_last_text(root, SELECTOR_MATCH_COMMENT@),
            address_at(links, 0),
            address_at(links, 1),
            selected_text(root, SELECTOR_MATCH_FORMAT@),
            selected_text(root, SELECTOR_MATCH_MAP@),
            selected_text(root, SELECTOR_MATCH_WEEK@),
            selected_text(root, SELECTOR_MATCH_DATE@),
            text_at(names, 0),
            text_at(names, 1),
            text_at(scores, 0),
            text_at(scores, 1),
        ),
    )
}

fn address_of<'a>(links: &Vec<scraper::ElementRef<'a>>, i: usize) -> (r: Option<&'a str>)
    ensures
        r.deep_view() == address_at(links@, i as int),
{
    if i < links.len() {
        Some(attr_or_default(links[i], "href"))
    } else {
        None
    }
}

fn text_of_cell<'a>(cells: &Vec<scraper::ElementRef<'a>>, i: usize) -> (r: Option<Option<&'a str>>)
    ensures
        r.deep_view() == text_at(cells@, i as int),
{
    if i < cells.len() {
        Some(first_text_of(cells[i]))
    } else {
        None
    }
}

impl Parser for MatchPageParser {
    type Output = MatchInfo;

    open spec fn page(&self, document: Seq<char>) -> Result<MatchInfoView, ScrapeErrorView> {
        match_page(document)
    }

    fn parse(&self, document: &str) -> (r: Result<MatchInfo, ScrapeError>) {
        proof {
            use_type_invariant(self);
        }
        let page = Document::parse(document);
        let root = page.root();
        let links = page.select(&self.selector_team_link);
        let names = page.select(&self.selector_result_team);
        let scores = page.select(&self.selector_result_score);
        let found = match_from_parts(
            self.selector_author.select_text(root),
            self.selector_comment.select_last_text(root),
            address_of(&links, 0),
            address_of(&links, 1),
            self.selector_format.select_text(root),
            self.selector_map.select_text(root),
            self.selector_week.select_text(root),
            self.selector_date.select_text(root),
            text_of_cell(&names, 0),
            text_of_cell(&names, 1),
            text_of_cell(&scores, 0),
            text_of_cell(&scores, 1),
        );
        match found {
            Ok(info) => Ok(info),
            Err(e) => Err(ScrapeError::Parse(e)),
        }
    }
}

} // verus!
