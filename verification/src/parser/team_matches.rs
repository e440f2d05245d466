//! The page of the matches of a team, season by season.

use crate::collect::{collected, lemma_collected_all, push_row};
use crate::order::{lemma_ordered, lemma_ordered_holds, ordered, put_in_order, InOrder, Keyed};
use crate::data::{
    MatchResult, MatchResultView, TeamMatches, TeamMatchesView, TeamRef, TeamRefView, TeamSeason,
    TeamSeasonMatch, TeamSeasonMatchView, TeamSeasonView,
};
use crate::dom::{
    attr_or_default, attr_or_empty, first_in, first_text_of, first_under, matches_in,
    matches_under, root_of, selected_text, text_of, Document, Query,
};
use crate::error::{
    empty_text, invalid_link, invalid_text, not_found, result_view, ParseError, ParseErrorView,
    ScrapeError, ScrapeErrorView,
};
use crate::links::{id_from_link, link_id, team_id_from_link};
use crate::number::{
    is_decimal, is_decimal_text, parse_u32, parse_u8, parse_week, parsed_u32, parsed_u8, parsed_week,
};
use crate::parser::Parser;
use crate::text::{
    lemma_first_in, or_empty, skip_leading, skip_prefixes, skip_trailing, split_first,
    split_once, trim, trim_end_of, trim_start_matches, trim_start_of, trimmed, unwrap_or_empty,
    CharSet,
};
use crate::vocabulary::GameMode;
use vstd::prelude::*;
use vstd::string::*;

verus! {

pub const SELECTOR_SEASON_TITLE: &'static str =
    ".container table.table.table-condensed.table-striped thead h4";

pub const SELECTOR_SEASON_SEASON: &'static str =
    ".container table.table.table-condensed.table-striped thead h4 b";

pub const SELECTOR_SEASON_MATCHES: &'static str =
    ".container table.table.table-condensed.table-striped tbody:nth-child(3n)";

pub const SELECTOR_SEASON_MATCH: &'static str = "tr:not(:last-child)";

pub const SELECTOR_SEASON_DIVISION: &'static str = "td:nth-child(1) small";

pub const SELECTOR_SEASON_WEEK: &'static str = "td:nth-child(2) small";

pub const SELECTOR_SEASON_DATE: &'static str = "td:nth-child(3) small";

pub const SELECTOR_SEASON_SIDE: &'static str = "td:nth-child(4) small";

pub const SELECTOR_SEASON_OPPONENT: &'static str = "td:nth-child(6) a";

pub const SELECTOR_SEASON_MAP: &'static str = "td:nth-child(7)";

pub const SELECTOR_SEASON_SCORES: &'static str = "td:nth-child(8)";

pub const SELECTOR_SEASON_POINTS: &'static str = "td:nth-child(9) small";

pub const SELECTOR_SEASON_POINTS_OPPONENTS: &'static str = "td:nth-child(10) small";

pub const SELECTOR_SEASON_MATCH_PAGE: &'static str = "td a[href^=\"matchpage\"]";

pub const SELECTOR_TEAM_NAME: &'static str = "div.col-md-9 > h2 > b";

pub const SELECTOR_TEAM_LINK: &'static str = "h2 > span.pull-right > a[href^=\"team_page.cfm\"]";

/// Reads the page of the matches of a team.
pub struct TeamMatchesParser {
    selector_title: Query,
    selector_season: Query,
    selector_matches: Query,
    selector_match: Query,
    selector_division: Query,
    selector_week: Query,
    selector_date: Query,
    selector_side: Query,
    selector_opponent: Query,
    selector_map: Query,
    selector_scores: Query,
    selector_points: Query,
    selector_points_opponent: Query,
    selector_match_page: Query,
    selector_team_name: Query,
    selector_team_link: Query,
}

impl TeamMatchesParser {
    #[verifier::type_invariant]
    spec fn compiled(self) -> bool {
        &&& self.selector_title@ == SELECTOR_SEASON_TITLE@
        &&& self.selector_season@ == SELECTOR_SEASON_SEASON@
        &&& self.selector_matches@ == SELECTOR_SEASON_MATCHES@
        &&& self.selector_match@ == SELECTOR_SEASON_MATCH@
        &&& self.selector_division@ == SELECTOR_SEASON_DIVISION@
        &&& self.selector_week@ == SELECTOR_SEASON_WEEK@
        &&& self.selector_date@ == SELECTOR_SEASON_DATE@
        &&& self.selector_side@ == SELECTOR_SEASON_SIDE@
        &&& self.selector_opponent@ == SELECTOR_SEASON_OPPONENT@
        &&& self.selector_map@ == SELECTOR_SEASON_MAP@
        &&& self.selector_scores@ == SELECTOR_SEASON_SCORES@
        &&& self.selector_points@ == SELECTOR_SEASON_POINTS@
        &&& self.selector_points_opponent@ == SELECTOR_SEASON_POINTS_OPPONENTS@
        &&& self.selector_match_page@ == SELECTOR_SEASON_MATCH_PAGE@
        &&& self.selector_team_name@ == SELECTOR_TEAM_NAME@
        &&& self.selector_team_link@ == SELECTOR_TEAM_LINK@
    }

    /// Whether the selectors of this parser are what they are meant to be.
    pub open spec fn selectors_compile() -> bool {
        &&& Query::is_selector(SELECTOR_SEASON_TITLE@)
        &&& Query::is_selector(SELECTOR_SEASON_SEASON@)
        &&& Query::is_selector(SELECTOR_SEASON_MATCHES@)
        &&& Query::is_selector(SELECTOR_SEASON_MATCH@)
        &&& Query::is_selector(SELECTOR_SEASON_DIVISION@)
        &&& Query::is_selector(SELECTOR_SEASON_WEEK@)
        &&& Query::is_selector(SELECTOR_SEASON_DATE@)
        &&& Query::is_selector(SELECTOR_SEASON_SIDE@)
        &&& Query::is_selector(SELECTOR_SEASON_OPPONENT@)
        &&& Query::is_selector(SELECTOR_SEASON_MAP@)
        &&& Query::is_selector(SELECTOR_SEASON_SCORES@)
        &&& Query::is_selector(SELECTOR_SEASON_POINTS@)
        &&& Query::is_selector(SELECTOR_SEASON_POINTS_OPPONENTS@)
        &&& Query::is_selector(SELECTOR_SEASON_MATCH_PAGE@)
        &&& Query::is_selector(SELECTOR_TEAM_NAME@)
        &&& Query::is_selector(SELECTOR_TEAM_LINK@)
    }

    /// Compiles the selectors; nothing where one of them does not compile.
    pub fn new() -> (r: Option<TeamMatchesParser>)
        ensures
            r is Some <==> TeamMatchesParser::selectors_compile(),
    {
        let selector_title = match Query::compile(SELECTOR_SEASON_TITLE) {
            Some(query) => query,
            None => {
                return None;
            },
        };
        let selector_season = match Query::compile(SELECTOR_SEASON_SEASON) {
            Some(query) => query,
            None => {
                return None;
            },
        };
        let selector_matches = match Query::compile(SELECTOR_SEASON_MATCHES) {
            Some(query) => query,
            None => {
                return None;
            },
        };
        let selector_match = match Query::compile(SELECTOR_SEASON_MATCH) {
            Some(query) => query,
            None => {
                return None;
            },
        };
        let selector_division = match Query::compile(SELECTOR_SEASON_DIVISION) {
            Some(query) => query,
            None => {
                return None;
            },
        };
        let selector_week = match Query::compile(SELECTOR_SEASON_WEEK) {
            Some(query) => query,
            None => {
                return None;
            },
        };
        let selector_date = match Query::compile(SELECTOR_SEASON_DATE) {
            Some(query) => query,
            None => {
                return None;
            },
        };
        let selector_side = match Query::compile(SELECTOR_SEASON_SIDE) {
            Some(query) => query,
            None => {
                return None;
            },
        };
        let selector_opponent = match Query::compile(SELECTOR_SEASON_OPPONENT) {
            Some(query) => query,
            None => {
                return None;
            },
        };
        let selector_map = match Query::compile(SELECTOR_SEASON_MAP) {
            Some(query) => query,
            None => {
                return None;
            },
        };
        let selector_scores = match Query::compile(SELECTOR_SEASON_SCORES) {
            Some(query) => query,
            None => {
                return None;
            },
        };
        let selector_points = match Query::compile(SELECTOR_SEASON_POINTS) {
            Some(query) => query,
            None => {
                return None;
            },
        };
        let selector_points_opponent = match Query::compile(SELECTOR_SEASON_POINTS_OPPONENTS) {
            Some(query) => query,
            None => {
                return None;
            },
        };
        let selector_match_page = match Query::compile(SELECTOR_SEASON_MATCH_PAGE) {
            Some(query) => query,
            None => {
                return None;
            },
        };
        let selector_team_name = match Query::compile(SELECTOR_TEAM_NAME) {
            Some(query) => query,
            None => {
                return None;
            },
        };
        let selector_team_link = match Query::compile(SELECTOR_TEAM_LINK) {
            Some(query) => query,
            None => {
                return None;
            },
        };
        Some(
            TeamMatchesParser {
                selector_title,
                selector_season,
                selector_matches,
                selector_match,
                selector_division,
                selector_week,
                selector_date,
                selector_side,
                selector_opponent,
                selector_map,
                selector_scores,
                selector_points,
                selector_points_opponent,
                selector_match_page,
                selector_team_name,
                selector_team_link,
            },
        )
    }
}

/// How a week went, from what its row shows: an opponent or none, a pair of points or
/// none, and the number of the match's own page or none.
///
/// Without an opponent the week is free. With an opponent and without a page the match is
/// known by its opponent alone. With both and without points it has yet to be played.
/// With all three it was played. A row with one of its two points is taken for a free
/// week where it has a page.
pub open spec fn classified(
    opponent: Option<TeamRefView>,
    points: Option<Seq<char>>,
    points_opponent: Option<Seq<char>>,
    id: Option<u32>,
    score: u8,
    score_opponent: u8,
) -> MatchResultView {
    match (opponent, points, points_opponent, id) {
        (Some(opponent), Some(points), Some(points_opponent), Some(id)) => MatchResultView::Played {
            id,
            opponent,
            score,
            score_opponent,
            match_points: points,
            match_points_opponent: points_opponent,
        },
        (Some(opponent), None, None, Some(id)) => MatchResultView::Pending {
            id,
            opponent,
            score,
            score_opponent,
        },
        (Some(opponent), _, _, None) => MatchResultView::Unknown {
            opponent,
            score,
            score_opponent,
        },
        _ => MatchResultView::ByeWeek,
    }
}

/// How a week went, from what its row shows.
pub fn classify_match(
    opponent: Option<TeamRef>,
    points: Option<String>,
    points_opponent: Option<String>,
    id: Option<u32>,
    score: u8,
    score_opponent: u8,
) -> (r: MatchResult)
    ensures
        r.deep_view() == classified(
            opponent.deep_view(),
            points.deep_view(),
            points_opponent.deep_view(),
            id,
            score,
            score_opponent,
        ),
{
    match (opponent, points, points_opponent, id) {
        (Some(opponent), Some(points), Some(points_opponent), Some(id)) => MatchResult::Played {
            id,
            opponent,
            score,
            score_opponent,
            match_points: points,
            match_points_opponent: points_opponent,
        },
        (Some(opponent), None, None, Some(id)) => MatchResult::Pending {
            id,
            opponent,
            score,
            score_opponent,
        },
        (Some(opponent), _, _, None) => MatchResult::Unknown { opponent, score, score_opponent },
        _ => MatchResult::ByeWeek,
    }
}

/// The kind of a week is decided by three signs alone: whether the row shows an opponent,
/// whether it shows points, and whether it links to a page of the match. Each of the
/// eight cases has one kind; the scores and the texts are carried along.
pub proof fn lemma_classified_by_presence(
    opponent: Option<TeamRefView>,
    points: Option<Seq<char>>,
    points_opponent: Option<Seq<char>>,
    id: Option<u32>,
    score: u8,
    score_opponent: u8,
)
    requires
        points is Some <==> points_opponent is Some,
    ensures
        ({
            let kind = classified(opponent, points, points_opponent, id, score, score_opponent);
            &&& opponent is None ==> kind == MatchResultView::ByeWeek
            &&& opponent is Some && id is None ==> kind == (MatchResultView::Unknown {
                opponent: opponent->0,
                score,
                score_opponent,
            })
            &&& opponent is Some && id is Some && points is None ==> kind
                == (MatchResultView::Pending {
                id: id->0,
                opponent: opponent->0,
                score,
                score_opponent,
            })
            &&& opponent is Some && id is Some && points is Some ==> kind
                == (MatchResultView::Played {
                id: id->0,
                opponent: opponent->0,
                score,
                score_opponent,
                match_points: points->0,
                match_points_opponent: points_opponent->0,
            })
        }),
{
}

/// A row that shows one of its two points and not the other is known by its opponent
/// where it has no page, and is a free week otherwise.
pub proof fn lemma_classified_half_points(
    opponent: Option<TeamRefView>,
    points: Option<Seq<char>>,
    points_opponent: Option<Seq<char>>,
    id: Option<u32>,
    score: u8,
    score_opponent: u8,
)
    requires
        !(points is Some <==> points_opponent is Some),
    ensures
        ({
            let kind = classified(opponent, points, points_opponent, id, score, score_opponent);
            &&& opponent is Some && id is None ==> kind == (MatchResultView::Unknown {
                opponent: opponent->0,
                score,
                score_opponent,
            })
            &&& opponent is None || id is Some ==> kind == MatchResultView::ByeWeek
        }),
{
}

/// The game mode that the first word of `title` that spells one spells. Words are what
/// single spaces part.
pub open spec fn first_mode_word(title: Seq<char>) -> Option<GameMode>
    decreases title.len(),
{
    match split_first(title, CharSet::One(' ')) {
        None => GameMode::spelled_by(title),
        Some((word, rest)) => match GameMode::spelled_by(word) {
            Some(mode) => Some(mode),
            None => if rest.len() < title.len() {
                first_mode_word(rest)
            } else {
                None
            },
        },
    }
}

/// The game mode that the first word of `title` that spells one spells.
pub fn mode_in_title(title: &str) -> (r: Option<GameMode>)
    ensures
        r == first_mode_word(title@),
{
    let mut rest = title;
    loop
        invariant
            first_mode_word(title@) == first_mode_word(rest@),
        decreases rest@.len(),
    {
        proof {
            lemma_first_in(rest@, CharSet::One(' '));
        }
        match split_once(rest, CharSet::One(' ')) {
            None => {
                return match GameMode::from_str(rest) {
                    Ok(mode) => Some(mode),
                    Err(_) => None,
                };
            },
            Some((word, tail)) => {
                match GameMode::from_str(word) {
                    Ok(mode) => {
                        return Some(mode);
                    },
                    Err(_) => {},
                }
                rest = tail;
            },
        }
    }
}

/// The scores of a row without the brackets around them.
pub open spec fn bare_scores(scores: Seq<char>) -> Seq<char> {
    skip_trailing(skip_leading(scores, CharSet::One('(')), CharSet::One(')'))
}

/// One score: the number that the text spells once trimmed, and 0 where it spells none.
pub open spec fn score_of(text: Seq<char>) -> u8 {
    match parsed_u8(trimmed(text)) {
        Some(score) => score,
        None => 0,
    }
}

/// One score: the number that the text spells once trimmed, and 0 where it spells none.
pub fn score_from(text: &str) -> (r: u8)
    ensures
        r == score_of(text@),
{
    match parse_u8(trim(text)) {
        Some(score) => score,
        None => 0,
    }
}

/// One week of a season, from the parts of its row: the texts of division, week, day,
/// side, map and scores; the text and the address of the link to the opponent, where the
/// row has one; the texts of the two points; and the number of the page of the match,
/// where the row links to one.
///
/// Division, week, day, side, map and scores have to be there, the week has to be a
/// number from 1 on, points that are there have to be decimal numbers, the scores have to hold a
/// `-`, and the link to an opponent has to end in a number. They are looked at in this
/// order and the first that fails, fails the row.
pub open spec fn match_of(
    division: Option<Seq<char>>,
    week: Option<Seq<char>>,
    date: Option<Seq<char>>,
    side: Option<Seq<char>>,
    opponent: Option<(Option<Seq<char>>, Seq<char>)>,
    map: Option<Seq<char>>,
    scores: Option<Seq<char>>,
    points: Option<Seq<char>>,
    points_opponent: Option<Seq<char>>,
    id: Option<u32>,
) -> Result<TeamSeasonMatchView, ParseErrorView> {
    if division is None {
        Err(not_found(SELECTOR_SEASON_DIVISION@, "match division"@))
    } else if week is None {
        Err(not_found(SELECTOR_SEASON_WEEK@, "match week"@))
    } else if parsed_week(week->0) is None {
        Err(invalid_text(week->0, "match week"@))
    } else if date is None {
        Err(not_found(SELECTOR_SEASON_DATE@, "match date"@))
    } else if side is None {
        Err(not_found(SELECTOR_SEASON_SIDE@, "match side"@))
    } else if map is None {
        Err(not_found(SELECTOR_SEASON_MAP@, "match map"@))
    } else if scores is None {
        Err(not_found(SELECTOR_SEASON_SCORES@, "match scores"@))
    } else if points is Some && !is_decimal_text(points->0) {
        Err(invalid_text(points->0, "match points"@))
    } else if points_opponent is Some && !is_decimal_text(points_opponent->0) {
        Err(invalid_text(points_opponent->0, "match points opponent"@))
    } else {
        match split_first(bare_scores(scores->0), CharSet::One('-')) {
            None => Err(invalid_text(bare_scores(scores->0), "match scores"@)),
            Some((score, score_opponent)) => {
                let rival = match opponent {
                    None => Ok(None),
                    Some((name, address)) => match link_id(address) {
                        Some(id) => Ok(Some(TeamRefView { name: or_empty(name), id })),
                        None => Err(invalid_link(address, "team id"@)),
                    },
                };
                match rival {
                    Err(e) => Err(e),
                    Ok(rival) => Ok(
                        TeamSeasonMatchView {
                            division: division->0,
                            week: parsed_week(week->0)->0,
                            date: date->0,
                            side: side->0,
                            result: classified(
                                rival,
                                points,
                                points_opponent,
                                id,
                                score_of(score),
                                score_of(score_opponent),
                            ),
                            map: map->0,
                        },
                    ),
                }
            },
        }
    }
}

/// One week of a season, from the parts of its row.
pub fn match_from_cells(
    division: Option<&str>,
    week: Option<&str>,
    date: Option<&str>,
    side: Option<&str>,
    opponent: Option<(Option<&str>, &str)>,
    map: Option<&str>,
    scores: Option<&str>,
    points: Option<&str>,
    points_opponent: Option<&str>,
    id: Option<u32>,
) -> (r: Result<TeamSeasonMatch, ParseError>)
    ensures
        result_view(r) == match_of(
            division.deep_view(),
            week.deep_view(),
            date.deep_view(),
            side.deep_view(),
            opponent.deep_view(),
            map.deep_view(),
            scores.deep_view(),
            points.deep_view(),
            points_opponent.deep_view(),
            id,
        ),
{
    let division = match division {
        Some(division) => division,
        None => {
            return Err(ParseError::element_not_found(SELECTOR_SEASON_DIVISION, "match division"));
        },
    };
    let week = match week {
        Some(week) => week,
        None => {
            return Err(ParseError::element_not_found(SELECTOR_SEASON_WEEK, "match week"));
        },
    };
    let week = match parse_week(week) {
        Some(number) => number,
        None => {
            return Err(ParseError::bad_text(week, "match week"));
        },
    };
    let date = match date {
        Some(date) => date,
        None => {
            return Err(ParseError::element_not_found(SELECTOR_SEASON_DATE, "match date"));
        },
    };
    let side = match side {
        Some(side) => side,
        None => {
            return Err(ParseError::element_not_found(SELECTOR_SEASON_SIDE, "match side"));
        },
    };
    let map = match map {
        Some(map) => map,
        None => {
            return Err(ParseError::element_not_found(SELECTOR_SEASON_MAP, "match map"));
        },
    };
    let scores = match scores {
        Some(scores) => trim_end_of(trim_start_of(scores, CharSet::One('(')), CharSet::One(')')),
        None => {
            return Err(ParseError::element_not_found(SELECTOR_SEASON_SCORES, "match scores"));
        },
    };
    let points = match points {
        Some(text) => {
            if !is_decimal(text) {
                return Err(ParseError::bad_text(text, "match points"));
            }
            Some(text.to_owned())
        },
        None => None,
    };
    let points_opponent = match points_opponent {
        Some(text) => {
            if !is_decimal(text) {
                return Err(ParseError::bad_text(text, "match points opponent"));
            }
            Some(text.to_owned())
        },
        None => None,
    };
    let (score, score_opponent) = match split_once(scores, CharSet::One('-')) {
        Some(parts) => parts,
        None => {
            return Err(ParseError::bad_text(scores, "match scores"));
        },
    };
    let score = score_from(score);
    let score_opponent = score_from(score_opponent);
    let opponent = match opponent {
        Some((name, address)) => {
            let id = team_id_from_link(address)?;
            Some(TeamRef { name: unwrap_or_empty(name).to_owned(), id })
        },
        None => None,
    };
    let result = classify_match(opponent, points, points_opponent, id, score, score_opponent);
    Ok(
        TeamSeasonMatch {
            division: division.to_owned(),
            week,
            date: date.to_owned(),
            side: side.to_owned(),
            result,
            map: map.to_owned(),
        },
    )
}

/// The text and the address of the link to the opponent of a row.
pub open spec fn opponent_link(game: scraper::ElementRef) -> Option<(Option<Seq<char>>, Seq<char>)> {
    match first_under(game, SELECTOR_SEASON_OPPONENT@) {
        Some(link) => Some((text_of(link), attr_or_empty(link, "href"@))),
        None => None,
    }
}

/// The number of the page of the match of a row: that at the end of the row's link to
/// such a page. A row without the link, or with one that ends in no number, has none.
pub open spec fn match_page_id(game: scraper::ElementRef) -> Option<u32> {
    match first_under(game, SELECTOR_SEASON_MATCH_PAGE@) {
        Some(link) => link_id(attr_or_empty(link, "href"@)),
        None => None,
    }
}

/// The week of one row of a season's table.
pub open spec fn match_of_row(game: scraper::ElementRef) -> Result<
    TeamSeasonMatchView,
    ParseErrorView,
> {
    match_of(
        selected_text(game, SELECTOR_SEASON_DIVISION@),
        selected_text(game, SELECTOR_SEASON_WEEK@),
        selected_text(game, SELECTOR_SEASON_DATE@),
        selected_text(game, SELECTOR_SEASON_SIDE@),
        opponent_link(game),
        selected_text(game, SELECTOR_SEASON_MAP@),
        selected_text(game, SELECTOR_SEASON_SCORES@),
        selected_text(game, SELECTOR_SEASON_POINTS@),
        selected_text(game, SELECTOR_SEASON_POINTS_OPPONENTS@),
        match_page_id(game),
    )
}

/// The weeks of a season's table, row by row.
pub open spec fn match_rows(table: scraper::ElementRef) -> Seq<
    Result<TeamSeasonMatchView, ParseErrorView>,
> {
    matches_under(table, SELECTOR_SEASON_MATCH@).map_values(
        |game: scraper::ElementRef| match_of_row(game),
    )
}

/// The number of a season, from the text that names it, such as `Season 12`.
pub open spec fn season_number(label: Seq<char>) -> Option<u32> {
    parsed_u32(skip_prefixes(label, "Season "@))
}

/// A season, from the text of its title, the text of the part of the title that names
/// the season, and the weeks of its table. The weeks are put in their order, the first
/// week first; rows of one week stay in the order in which they are yielded.
pub open spec fn season_of(
    title: Option<Seq<char>>,
    label: Option<Seq<char>>,
    matches: Result<Seq<TeamSeasonMatchView>, ParseErrorView>,
) -> Result<TeamSeasonView, ParseErrorView> {
    if title is None {
        Err(empty_text(SELECTOR_SEASON_TITLE@, "season title"@))
    } else if first_mode_word(title->0) is None {
        Err(invalid_text(title->0, "season format"@))
    } else if label is None {
        Err(empty_text(SELECTOR_SEASON_SEASON@, "season title"@))
    } else if season_number(label->0) is None {
        Err(invalid_text(label->0, "season title"@))
    } else if matches is Err {
        Err(matches->Err_0)
    } else {
        Ok(
            TeamSeasonView {
                season: season_number(label->0)->0,
                format: first_mode_word(title->0)->0,
                matches: ordered(matches->Ok_0),
            },
        )
    }
}

/// The smallest of three numbers.
pub open spec fn least(a: int, b: int, c: int) -> int {
    if a <= b && a <= c {
        a
    } else if b <= c {
        b
    } else {
        c
    }
}

/// The seasons of a page: the titles, the names of the seasons and the tables of the
/// page are taken in step, as far as the shortest of the three lists goes.
pub open spec fn season_rows(document: Seq<char>) -> Seq<Result<TeamSeasonView, ParseErrorView>> {
    let titles = matches_in(document, SELECTOR_SEASON_TITLE@);
    let labels = matches_in(document, SELECTOR_SEASON_SEASON@);
    let tables = matches_in(document, SELECTOR_SEASON_MATCHES@);
    Seq::new(
        least(titles.len() as int, labels.len() as int, tables.len() as int) as nat,
        |i: int| season_of(text_of(titles[i]), text_of(labels[i]), collected(match_rows(tables[i]))),
    )
}

/// The team whose page it is: the number at the end of the link to its profile, which
/// has to be there, and its name, which may be missing.
pub open spec fn page_team(document: Seq<char>) -> Result<TeamRefView, ParseErrorView> {
    let id = match first_in(document, SELECTOR_TEAM_LINK@) {
        Some(link) => link_id(attr_or_empty(link, "href"@)),
        None => None,
    };
    match id {
        Some(id) => Ok(
            TeamRefView {
                id,
                name: or_empty(selected_text(root_of(document), SELECTOR_TEAM_NAME@)),
            },
        ),
        None => Err(not_found(SELECTOR_TEAM_LINK@, "match team link"@)),
    }
}

/// The matches of a team. The seasons are read first, in the order in which their
/// elements are yielded, and the first part that is missing or malformed fails the page;
/// then the team itself is read. Within a season the weeks ascend, and no week is
/// before the first.
pub open spec fn matches_page(document: Seq<char>) -> Result<TeamMatchesView, ScrapeErrorView> {
    match collected(season_rows(document)) {
        Err(e) => Err(ScrapeErrorView::Parse(e)),
        Ok(seasons) => match page_team(document) {
            Err(e) => Err(ScrapeErrorView::Parse(e)),
            Ok(team) => Ok(TeamMatchesView { team, seasons }),
        },
    }
}

impl Keyed for TeamSeasonMatchView {
    /// The weeks of a season are ordered by their numbers.
    open spec fn key(self) -> int {
        self.week as int
    }
}

impl InOrder for TeamSeasonMatch {
    fn not_after(&self, other: &TeamSeasonMatch) -> (r: bool) {
        self.week <= other.week
    }
}

/// Whether the weeks ascend and are counted from 1.
pub open spec fn weeks_ascend(weeks: Seq<TeamSeasonMatchView>) -> bool {
    &&& forall|i: int| 0 <= i < weeks.len() ==> (#[trigger] weeks[i]).week >= 1
    &&& forall|i: int, j: int|
        0 <= i <= j < weeks.len() ==> (#[trigger] weeks[i]).week <= (#[trigger] weeks[j]).week
}

/// In every season of a page that reads, the weeks ascend and are counted from 1, and
/// there is one week for each row of the season's table.
pub proof fn lemma_weeks_ascend(document: Seq<char>, s: int)
    requires
        matches_page(document) is Ok,
        0 <= s < matches_page(document)->Ok_0.seasons.len(),
    ensures
        weeks_ascend(matches_page(document)->Ok_0.seasons[s].matches),
        matches_page(document)->Ok_0.seasons[s].matches.len() == match_rows(
            matches_in(document, SELECTOR_SEASON_MATCHES@)[s],
        ).len(),
{
    let seasons = season_rows(document);
    lemma_collected_all(seasons);
    let table = matches_in(document, SELECTOR_SEASON_MATCHES@)[s];
    let rows = match_rows(table);
    assert(seasons[s] == Ok::<TeamSeasonView, ParseErrorView>(
        matches_page(document)->Ok_0.seasons[s],
    ));
    let read = collected(rows)->Ok_0;
    let weeks = ordered(read);
    assert(matches_page(document)->Ok_0.seasons[s].matches == weeks);
    lemma_collected_all(rows);
    lemma_ordered(read);
    assert forall|i: int| 0 <= i < weeks.len() implies (#[trigger] weeks[i]).week >= 1 by {
        lemma_ordered_holds(read, i);
        let j = choose|j: int| 0 <= j < read.len() && read[j] == ordered(read)[i];
        assert(rows[j] == Ok::<TeamSeasonMatchView, ParseErrorView>(read[j]));
        assert(rows[j] == match_of_row(matches_under(table, SELECTOR_SEASON_MATCH@)[j]));
    }
    assert forall|i: int, j: int| 0 <= i <= j < weeks.len() implies (#[trigger] weeks[i]).week <= (
    #[trigger] weeks[j]).week by {
        assert(weeks[i].key() <= weeks[j].key());
    }
}

impl TeamMatchesParser {
    fn game(&self, game: scraper::ElementRef) -> (r: Result<TeamSeasonMatch, ParseError>)
        ensures
            result_view(r) == match_of_row(game),
    {
        proof {
            use_type_invariant(self);
        }
        let opponent = match self.selector_opponent.first(game) {
            Some(link) => Some((first_text_of(link), attr_or_default(link, "href"))),
            None => None,
        };
        let id = match self.selector_match_page.first(game) {
            Some(link) => id_from_link(attr_or_default(link, "href")),
            None => None,
        };
        match_from_cells(
            self.selector_division.select_text(game),
            self.selector_week.select_text(game),
            self.selector_date.select_text(game),
            self.selector_side.select_text(game),
            opponent,
            self.selector_map.select_text(game),
            self.selector_scores.select_text(game),
            self.selector_points.select_text(game),
            self.selector_points_opponent.select_text(game),
            id,
        )
    }

    #[verifier::loop_isolation(false)]
    fn games(&self, table: scraper::ElementRef) -> (r: Result<Vec<TeamSeasonMatch>, ParseError>)
        ensures
            result_view(r) == collected(match_rows(table)),
    {
        proof {
            use_type_invariant(self);
        }
        let rows = self.selector_match.select(table);
        let ghost items = match_rows(table);
        let mut out: Vec<TeamSeasonMatch> = Vec::new();
        let mut i: usize = 0;
        assert(items.take(0) =~= Seq::empty());
        assert(out.deep_view() =~= Seq::empty());
        while i < rows.len()
            invariant
                i <= rows.len(),
                collected(items.take(i as int)) == Ok::<Seq<TeamSeasonMatchView>, ParseErrorView>(
                    out.deep_view(),
                ),
            decreases rows.len() - i,
        {
            let game = self.game(rows[i]);
            match push_row(&mut out, game, Ghost(items), Ghost(i as int)) {
                Ok(_) => {},
                Err(e) => {
                    return Err(e);
                },
            }
            i += 1;
        }
        assert(items.take(i as int) =~= items);
        Ok(out)
    }

    fn season(
        &self,
        title: scraper::ElementRef,
        label: scraper::ElementRef,
        table: scraper::ElementRef,
    ) -> (r: Result<TeamSeason, ParseError>)
        ensures
            result_view(r) == season_of(text_of(title), text_of(label), collected(match_rows(table))),
    {
        let title = match first_text_of(title) {
            Some(title) => title,
            None => {
                return Err(ParseError::no_text(SELECTOR_SEASON_TITLE, "season title"));
            },
        };
        let format = match mode_in_title(title) {
            Some(format) => format,
            None => {
                return Err(ParseError::bad_text(title, "season format"));
            },
        };
        let label = match first_text_of(label) {
            Some(label) => label,
            None => {
                return Err(ParseError::no_text(SELECTOR_SEASON_SEASON, "season title"));
            },
        };
        let season = match parse_u32(trim_start_matches(label, "Season ")) {
            Some(season) => season,
            None => {
                return Err(ParseError::bad_text(label, "season title"));
            },
        };
        let matches = put_in_order(self.games(table)?);
        Ok(TeamSeason { season, format, matches })
    }

    #[verifier::loop_isolation(false)]
    fn seasons(&self, page: &Document) -> (r: Result<Vec<TeamSeason>, ParseError>)
        ensures
            result_view(r) == collected(season_rows(page@)),
    {
        proof {
            use_type_invariant(self);
        }
        let titles = page.select(&self.selector_title);
        let labels = page.select(&self.selector_season);
        let tables = page.select(&self.selector_matches);
        let mut count: usize = titles.len();
        if labels.len() < count {
            count = labels.len();
        }
        if tables.len() < count {
            count = tables.len();
        }
        let ghost items = season_rows(page@);
        let mut out: Vec<TeamSeason> = Vec::new();
        let mut i: usize = 0;
        assert(items.take(0) =~= Seq::empty());
        assert(out.deep_view() =~= Seq::empty());
        while i < count
            invariant
                i <= count,
                count == items.len(),
                collected(items.take(i as int)) == Ok::<Seq<TeamSeasonView>, ParseErrorView>(
                    out.deep_view(),
                ),
            decreases count - i,
        {
            let season = self.season(titles[i], labels[i], tables[i]);
            match push_row(&mut out, season, Ghost(items), Ghost(i as int)) {
                Ok(_) => {},
                Err(e) => {
                    return Err(e);
                },
            }
            i += 1;
        }
        assert(items.take(i as int) =~= items);
        Ok(out)
    }
}

impl Parser for TeamMatchesParser {
    type Output = TeamMatches;

    open spec fn page(&self, document: Seq<char>) -> Result<TeamMatchesView, ScrapeErrorView> {
        matches_page(document)
    }

    fn parse(&self, document: &str) -> (r: Result<TeamMatches, ScrapeError>)
        ensures
            r matches Ok(found) ==> forall|s: int|
                0 <= s < found.deep_view().seasons.len() ==> weeks_ascend(
                    (#[trigger] found.deep_view().seasons[s]).matches,
                ),
    {
        proof {
            use_type_invariant(self);
            if matches_page(document@) is Ok {
                assert forall|s: int|
                    0 <= s < matches_page(document@)->Ok_0.seasons.len() implies weeks_ascend(
                    (#[trigger] matches_page(document@)->Ok_0.seasons[s]).matches,
                ) by {
                    lemma_weeks_ascend(document@, s);
                }
            }
        }
        let page = Document::parse(document);
        let seasons = match self.seasons(&page) {
            Ok(seasons) => seasons,
            Err(e) => {
                return Err(ScrapeError::Parse(e));
            },
        };
        let id = match page.first(&self.selector_team_link) {
            Some(link) => id_from_link(attr_or_default(link, "href")),
            None => None,
        };
        let id = match id {
            Some(id) => id,
            None => {
                return Err(
                    ScrapeError::Parse(
                        ParseError::element_not_found(SELECTOR_TEAM_LINK, "match team link"),
                    ),
                );
            },
        };
        let name = unwrap_or_empty(self.selector_team_name.select_text(page.root()));
        Ok(TeamMatches { team: TeamRef { id, name: name.to_owned() }, seasons })
    }
}

} // verus!
