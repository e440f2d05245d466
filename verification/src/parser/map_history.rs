//! The page of the maps of a game mode: those of the running season, and those of the
//! seasons of the past.

use crate::collect::{collected, push_row};
use crate::data::{
    CurrentSeasonMap, CurrentSeasonMapList, CurrentSeasonMapListView, CurrentSeasonMapView,
    MapHistory, MapHistoryView, PreviousSeasonMap, PreviousSeasonMapList,
    PreviousSeasonMapListView, PreviousSeasonMapView,
};
use crate::date::{calendar_date, Date, DateView};
use crate::dom::{
    attr, child_element_count, element_attr, element_child_count, first_text_of, matches_in,
    root_of, selected_text, text_of, Document, Query,
};
use crate::error::{
    invalid_date, invalid_text, not_found, result_view, ParseError, ParseErrorView, ScrapeError,
    ScrapeErrorView,
};
use crate::number::{parse_i32, parse_u8, parse_week, parsed_i32, parsed_u8, parsed_week};
use crate::parser::Parser;
use crate::text::{
    before_first, head_before, or_empty, skip_prefixes, split_first, split_once, str_eq, trim,
    trim_start_matches, trimmed, unwrap_or_empty, CharSet,
};
use vstd::prelude::*;
use vstd::string::*;

verus! {

pub const SELECTOR_CURRENT_ROW: &'static str =
    "table.table.table-condensed.table-responsive tbody tr";

pub const SELECTOR_CURRENT_SEASON: &'static str =
    "div.row > div > div.white-row-small > h5:nth-child(2), div.row-fluid > div > div.white-row-small > h4:first-child+h5";

pub const SELECTOR_CURRENT_WEEK: &'static str = "td:nth-child(1)";

pub const SELECTOR_CURRENT_MAP: &'static str = "td:nth-child(2)";

pub const SELECTOR_CURRENT_DATE: &'static str = "td:nth-child(4) small";

pub const SELECTOR_CURRENT_DATE_ALT: &'static str = "td:nth-child(5) small";

pub const SELECTOR_PREVIOUS: &'static str =
    "table.table.table-condensed.table-bordered tbody tr:not(:first-child)";

pub const SELECTOR_PREVIOUS_WEEK: &'static str = "td:nth-child(1)";

pub const SELECTOR_PREVIOUS_DATE: &'static str = "td:nth-child(2)";

pub const SELECTOR_PREVIOUS_MAP: &'static str = "td:nth-child(3)";

/// Reads the page of the maps of a game mode.
pub struct MapHistoryParser {
    selector_current_row: Query,
    selector_current_season: Query,
    selector_current_week: Query,
    selector_current_map: Query,
    selector_current_date: Query,
    selector_current_date_alt: Query,
    selector_previous: Query,
    selector_previous_week: Query,
    selector_previous_date: Query,
    selector_previous_map: Query,
}

impl MapHistoryParser {
    #[verifier::type_invariant]
    spec fn compiled(self) -> bool {
        &&& self.selector_current_row@ == SELECTOR_CURRENT_ROW@
        &&& self.selector_current_season@ == SELECTOR_CURRENT_SEASON@
        &&& self.selector_current_week@ == SELECTOR_CURRENT_WEEK@
        &&& self.selector_current_map@ == SELECTOR_CURRENT_MAP@
        &&& self.selector_current_date@ == SELECTOR_CURRENT_DATE@
        &&& self.selector_current_date_alt@ == SELECTOR_CURRENT_DATE_ALT@
        &&& self.selector_previous@ == SELECTOR_PREVIOUS@
        &&& self.selector_previous_week@ == SELECTOR_PREVIOUS_WEEK@
        &&& self.selector_previous_date@ == SELECTOR_PREVIOUS_DATE@
        &&& self.selector_previous_map@ == SELECTOR_PREVIOUS_MAP@
    }

    /// Whether the selectors of this parser are what they are meant to be.
    pub open spec fn selectors_compile() -> bool {
        &&& Query::is_selector(SELECTOR_CURRENT_ROW@)
        &&& Query::is_selector(SELECTOR_CURRENT_SEASON@)
        &&& Query::is_selector(SELECTOR_CURRENT_WEEK@)
        &&& Query::is_selector(SELECTOR_CURRENT_MAP@)
        &&& Query::is_selector(SELECTOR_CURRENT_DATE@)
        &&& Query::is_selector(SELECTOR_CURRENT_DATE_ALT@)
        &&& Query::is_selector(SELECTOR_PREVIOUS@)
        &&& Query::is_selector(SELECTOR_PREVIOUS_WEEK@)
        &&& Query::is_selector(SELECTOR_PREVIOUS_DATE@)
        &&& Query::is_selector(SELECTOR_PREVIOUS_MAP@)
    }

    /// Compiles the selectors; nothing where one of them does not compile.
    pub fn new() -> (r: Option<MapHistoryParser>)
        ensures
            r is Some <==> MapHistoryParser::selectors_compile(),
    {
        let selector_current_row = match Query::compile(SELECTOR_CURRENT_ROW) {
            Some(query) => query,
            None => {
                return None;
            },
        };
        let selector_current_season = match Query::compile(SELECTOR_CURRENT_SEASON) {
            Some(query) => query,
            None => {
                return None;
            },
        };
        let selector_current_week = match Query::compile(SELECTOR_CURRENT_WEEK) {
            Some(query) => query,
            None => {
                return None;
            },
        };
        let selector_current_map = match Query::compile(SELECTOR_CURRENT_MAP) {
            Some(query) => query,
            None => {
                return None;
            },
        };
        let selector_current_date = match Query::compile(SELECTOR_CURRENT_DATE) {
            Some(query) => query,
            None => {
                return None;
            },
        };
        let selector_current_date_alt = match Query::compile(SELECTOR_CURRENT_DATE_ALT) {
            Some(query) => query,
            None => {
                return None;
            },
        };
        let selector_previous = match Query::compile(SELECTOR_PREVIOUS) {
            Some(query) => query,
            None => {
                return None;
            },
        };
        let selector_previous_week = match Query::compile(SELECTOR_PREVIOUS_WEEK) {
            Some(query) => query,
            None => {
                return None;
            },
        };
        let selector_previous_date = match Query::compile(SELECTOR_PREVIOUS_DATE) {
            Some(query) => query,
            None => {
                return None;
            },
        };
        let selector_previous_map = match Query::compile(SELECTOR_PREVIOUS_MAP) {
            Some(query) => query,
            None => {
                return None;
            },
        };
        Some(
            MapHistoryParser {
                selector_current_row,
                selector_current_season,
                selector_current_week,
                selector_current_map,
                selector_current_date,
                selector_current_date_alt,
                selector_previous,
                selector_previous_week,
                selector_previous_date,
                selector_previous_map,
            },
        )
    }
}

/// The number of the running season, from the text that names it, such as `Season 42`.
pub open spec fn current_season(text: Option<Seq<char>>) -> Result<u8, ParseErrorView> {
    match text {
        None => Err(not_found(SELECTOR_CURRENT_SEASON@, "current season number"@)),
        Some(text) => {
            let number = trimmed(skip_prefixes(text, "Season"@));
            match parsed_u8(number) {
                Some(season) => Ok(season),
                None => Err(invalid_text(number, "current season number"@)),
            }
        },
    }
}

/// The number of the running season, from the text that names it.
pub fn current_season_from(text: Option<&str>) -> (r: Result<u8, ParseError>)
    ensures
        result_view(r) == current_season(text.deep_view()),
{
    match text {
        None => Err(
            ParseError::element_not_found(SELECTOR_CURRENT_SEASON, "current season number"),
        ),
        Some(text) => {
            let number = trim(trim_start_matches(text, "Season"));
            match parse_u8(number) {
                Some(season) => Ok(season),
                None => Err(ParseError::bad_text(number, "current season number")),
            }
        },
    }
}

/// A week of the running season, from the cells of its row: week, map, and one or two
/// days. Weeks are counted from 1.
///
/// Where the row has a second day, the first is that of one region and the second is the
/// day that holds for all: the two change places, so that `date` is always the day for
/// all.
pub open spec fn current_map_of(
    week: Option<Seq<char>>,
    map: Option<Seq<char>>,
    date: Option<Seq<char>>,
    second_date: Option<Seq<char>>,
) -> Result<CurrentSeasonMapView, ParseErrorView> {
    if week is None {
        Err(not_found(SELECTOR_CURRENT_WEEK@, "current season week number"@))
    } else if parsed_week(week->0) is None {
        Err(invalid_text(week->0, "current season week number"@))
    } else if map is None {
        Err(not_found(SELECTOR_CURRENT_MAP@, "current season map"@))
    } else if date is None {
        Err(not_found(SELECTOR_CURRENT_DATE@, "current season date"@))
    } else {
        Ok(
            match second_date {
                Some(for_all) => CurrentSeasonMapView {
                    week: parsed_week(week->0)->0,
                    map: map->0,
                    date: for_all,
                    na_date: Some(date->0),
                },
                None => CurrentSeasonMapView {
                    week: parsed_week(week->0)->0,
                    map: map->0,
                    date: date->0,
                    na_date: None,
                },
            },
        )
    }
}

/// A week of the running season, from the cells of its row.
pub fn current_map_from_cells(
    week: Option<&str>,
    map: Option<&str>,
    date: Option<&str>,
    second_date: Option<&str>,
) -> (r: Result<CurrentSeasonMap, ParseError>)
    ensures
        result_view(r) == current_map_of(
            week.deep_view(),
            map.deep_view(),
            date.deep_view(),
            second_date.deep_view(),
        ),
{
    let week = match week {
        Some(week) => week,
        None => {
            return Err(
                ParseError::element_not_found(SELECTOR_CURRENT_WEEK, "current season week number"),
            );
        },
    };
    let week = match parse_week(week) {
        Some(number) => number,
        None => {
            return Err(ParseError::bad_text(week, "current season week number"));
        },
    };
    let map = match map {
        Some(map) => map,
        None => {
            return Err(ParseError::element_not_found(SELECTOR_CURRENT_MAP, "current season map"));
        },
    };
    let date = match date {
        Some(date) => date,
        None => {
            return Err(
                ParseError::element_not_found(SELECTOR_CURRENT_DATE, "current season date"),
            );
        },
    };
    match second_date {
        Some(for_all) => Ok(
            CurrentSeasonMap {
                week,
                map: map.to_owned(),
                date: for_all.to_owned(),
                na_date: Some(date.to_owned()),
            },
        ),
        None => Ok(
            CurrentSeasonMap { week, map: map.to_owned(), date: date.to_owned(), na_date: None },
        ),
    }
}

/// The day that a text such as `3/14/16` shows: month, day and the last two digits of
/// the year, with `/` between them. 2000 is added to the year.
pub open spec fn short_date(text: Seq<char>) -> Option<DateView> {
    match split_first(text, CharSet::One('/')) {
        None => None,
        Some((month, rest)) => match split_first(rest, CharSet::One('/')) {
            None => None,
            Some((day, rest)) => {
                let year = head_before(rest, CharSet::One('/'));
                if parsed_u8(month) is None || parsed_u8(day) is None || parsed_i32(year) is None {
                    None
                } else {
                    calendar_date(
                        2000 + parsed_i32(year)->0,
                        parsed_u8(month)->0 as int,
                        parsed_u8(day)->0 as int,
                    )
                }
            },
        },
    }
}

/// The day that a text such as `3/14/16` shows.
pub fn parse_short_date(text: &str) -> (r: Option<Date>)
    ensures
        r.deep_view() == short_date(text@),
{
    let (month, rest) = match split_once(text, CharSet::One('/')) {
        Some(parts) => parts,
        None => {
            return None;
        },
    };
    let (day, rest) = match split_once(rest, CharSet::One('/')) {
        Some(parts) => parts,
        None => {
            return None;
        },
    };
    let year = before_first(rest, CharSet::One('/'));
    let month = match parse_u8(month) {
        Some(month) => month,
        None => {
            return None;
        },
    };
    let day = match parse_u8(day) {
        Some(day) => day,
        None => {
            return None;
        },
    };
    let year = match parse_i32(year) {
        Some(year) => year,
        None => {
            return None;
        },
    };
    if year < -12000 || year > 8000 {
        return None;
    }
    Date::from_calendar_date(2000 + year, month, day)
}

/// A row of the table of the seasons of the past, as far as the grouping looks at it.
pub enum SeasonRow<'a> {
    /// A row that begins a season: it holds the text that names the season.
    Header { title: Option<&'a str> },
    /// A row of three cells: week, day and map.
    Data { week: Option<&'a str>, date: Option<&'a str>, map: Option<&'a str> },
    /// Any other row.
    Other,
}

/// What a `SeasonRow` holds.
pub enum SeasonRowView {
    Header { title: Option<Seq<char>> },
    Data { week: Option<Seq<char>>, date: Option<Seq<char>>, map: Option<Seq<char>> },
    Other,
}

impl<'a> DeepView for SeasonRow<'a> {
    type V = SeasonRowView;

    open spec fn deep_view(&self) -> SeasonRowView {
        match *self {
            SeasonRow::Header { title } => SeasonRowView::Header { title: title.deep_view() },
            SeasonRow::Data { week, date, map } => SeasonRowView::Data {
                week: week.deep_view(),
                date: date.deep_view(),
                map: map.deep_view(),
            },
            SeasonRow::Other => SeasonRowView::Other,
        }
    }
}

/// The seasons that the rows read so far have made: those that are closed, and the one
/// that the rows are still filling.
pub struct Grouping {
    pub closed: Seq<PreviousSeasonMapListView>,
    pub open: Option<PreviousSeasonMapListView>,
}

/// Whether a row of three cells repeats the heads of the columns and is no week.
pub open spec fn is_column_head(week: Seq<char>) -> bool {
    week == "Week"@
}

/// The week of a row of three cells. Weeks are counted from 1.
pub open spec fn previous_map_of(
    week: Seq<char>,
    date: Option<Seq<char>>,
    map: Option<Seq<char>>,
) -> Result<PreviousSeasonMapView, ParseErrorView> {
    if parsed_week(week) is None {
        Err(invalid_text(week, "previous season week number"@))
    } else if date is None {
        Err(not_found(SELECTOR_PREVIOUS_DATE@, "previous season date"@))
    } else if short_date(date->0) is None {
        Err(invalid_date(date->0, "previous season date"@))
    } else if map is None {
        Err(not_found(SELECTOR_PREVIOUS_MAP@, "previous season map"@))
    } else {
        Ok(
            PreviousSeasonMapView {
                week: parsed_week(week)->0,
                map: map->0,
                date: short_date(date->0)->0,
            },
        )
    }
}

/// The number of a season of the past, from the text of the row that begins it.
pub open spec fn previous_season(title: Option<Seq<char>>) -> Result<u8, ParseErrorView> {
    let number = skip_prefixes(or_empty(title), "Season "@);
    match parsed_u8(number) {
        Some(season) => Ok(season),
        None => Err(invalid_text(number, "previous season number"@)),
    }
}

/// What one row does to the seasons made so far. A row that begins a season closes the
/// season that was being filled and opens a new one. A row of three cells is a week of
/// the season that is being filled, unless it repeats the heads of the columns; before
/// the first season it is nothing. Any other row is nothing.
pub open spec fn after_row(so_far: Grouping, row: SeasonRowView) -> Result<Grouping, ParseErrorView> {
    match row {
        SeasonRowView::Header { title } => match previous_season(title) {
            Err(e) => Err(e),
            Ok(season) => Ok(
                Grouping {
                    closed: match so_far.open {
                        Some(filled) => so_far.closed.push(filled),
                        None => so_far.closed,
                    },
                    open: Some(PreviousSeasonMapListView { season, maps: Seq::empty() }),
                },
            ),
        },
        SeasonRowView::Data { week, date, map } => match so_far.open {
            None => Ok(so_far),
            Some(filling) => match week {
                None => Err(not_found(SELECTOR_PREVIOUS_WEEK@, "previous season week number"@)),
                Some(week) => if is_column_head(week) {
                    Ok(so_far)
                } else {
                    match previous_map_of(week, date, map) {
                        Err(e) => Err(e),
                        Ok(found) => Ok(
                            Grouping {
                                closed: so_far.closed,
                                open: Some(
                                    PreviousSeasonMapListView {
                                        season: filling.season,
                                        maps: filling.maps.push(found),
                                    },
                                ),
                            },
                        ),
                    }
                },
            },
        },
        SeasonRowView::Other => Ok(so_far),
    }
}

/// What the rows make, one after the other, from no season at all. The first row that
/// fails, fails them all.
pub open spec fn after_rows(rows: Seq<SeasonRowView>) -> Result<Grouping, ParseErrorView>
    decreases rows.len(),
{
    if rows.len() == 0 {
        Ok(Grouping { closed: Seq::empty(), open: None })
    } else {
        match after_rows(rows.drop_last()) {
            Err(e) => Err(e),
            Ok(so_far) => after_row(so_far, rows.last()),
        }
    }
}

/// The seasons that are there when the rows have ended: the closed ones, and behind them
/// the one that was still being filled. No row closes the last season, so the end of the
/// rows does.
pub open spec fn all_seasons(made: Grouping) -> Seq<PreviousSeasonMapListView> {
    match made.open {
        Some(filled) => made.closed.push(filled),
        None => made.closed,
    }
}

/// The seasons of the past that a table shows, from its rows.
pub open spec fn grouped(rows: Seq<SeasonRowView>) -> Result<
    Seq<PreviousSeasonMapListView>,
    ParseErrorView,
> {
    match after_rows(rows) {
        Err(e) => Err(e),
        Ok(made) => Ok(all_seasons(made)),
    }
}

/// A failure among the first `n` rows is the failure of all the rows.
pub proof fn lemma_after_rows_failure(rows: Seq<SeasonRowView>, n: int)
    requires
        0 <= n <= rows.len(),
        after_rows(rows.take(n)) is Err,
    ensures
        after_rows(rows) == after_rows(rows.take(n)),
    decreases rows.len() - n,
{
    if n < rows.len() {
        assert(rows.take(n + 1).drop_last() =~= rows.take(n));
        lemma_after_rows_failure(rows, n + 1);
    } else {
        assert(rows.take(n) =~= rows);
    }
}

/// The seasons of the past that a table shows, from its rows.
pub fn group_seasons(rows: &Vec<SeasonRow>) -> (r: Result<Vec<PreviousSeasonMapList>, ParseError>)
    ensures
        result_view(r) == grouped(rows.deep_view()),
{
    let ghost all = rows.deep_view();
    let mut closed: Vec<PreviousSeasonMapList> = Vec::new();
    let mut open: Option<PreviousSeasonMapList> = None;
    let mut i: usize = 0;
    assert(all.take(0) =~= Seq::empty());
    assert(closed.deep_view() =~= Seq::empty());
    while i < rows.len()
        invariant
            i <= rows.len(),
            all == rows.deep_view(),
            after_rows(all.take(i as int)) == Ok::<Grouping, ParseErrorView>(
                Grouping { closed: closed.deep_view(), open: open.deep_view() },
            ),
        decreases rows.len() - i,
    {
        proof {
            assert(all.take(i + 1).drop_last() =~= all.take(i as int));
            assert(all.take(i + 1).last() == rows@[i as int].deep_view());
        }
        let ghost so_far = Grouping { closed: closed.deep_view(), open: open.deep_view() };
        match &rows[i] {
            SeasonRow::Header { title } => {
                let number = trim_start_matches(unwrap_or_empty(*title), "Season ");
                let season = match parse_u8(number) {
                    Some(season) => season,
                    None => {
                        proof {
                            lemma_after_rows_failure(all, i + 1);
                        }
                        return Err(ParseError::bad_text(number, "previous season number"));
                    },
                };
                match open {
                    Some(filled) => {
                        let ghost before = closed.deep_view();
                        closed.push(filled);
                        assert(closed.deep_view() =~= before.push(filled.deep_view()));
                    },
                    None => {},
                }
                let maps: Vec<PreviousSeasonMap> = Vec::new();
                assert(maps.deep_view() =~= Seq::empty());
                open = Some(PreviousSeasonMapList { season, maps });
            },
            SeasonRow::Data { week, date, map } => {
                match open {
                    None => {
                        open = None;
                    },
                    Some(filling) => {
                        let week = match *week {
                            Some(week) => week,
                            None => {
                                proof {
                                    lemma_after_rows_failure(all, i + 1);
                                }
                                return Err(
                                    ParseError::element_not_found(
                                        SELECTOR_PREVIOUS_WEEK,
                                        "previous season week number",
                                    ),
                                );
                            },
                        };
                        if str_eq(week, "Week") {
                            open = Some(filling);
                        } else {
                            match previous_map_from_cells(week, *date, *map) {
                                Ok(found) => {
                                    let mut filling = filling;
                                    let ghost before = filling.maps.deep_view();
                                    filling.maps.push(found);
                                    assert(filling.maps.deep_view() =~= before.push(
                                        found.deep_view(),
                                    ));
                                    open = Some(filling);
                                },
                                Err(e) => {
                                    proof {
                                        lemma_after_rows_failure(all, i + 1);
                                    }
                                    return Err(e);
                                },
                            }
                        }
                    },
                }
            },
            SeasonRow::Other => {},
        }
        i += 1;
    }
    assert(all.take(i as int) =~= all);
    match open {
        Some(filled) => {
            let ghost before = closed.deep_view();
            closed.push(filled);
            assert(closed.deep_view() =~= before.push(filled.deep_view()));
        },
        None => {},
    }
    Ok(closed)
}

/// The week of a row of three cells.
pub fn previous_map_from_cells(week: &str, date: Option<&str>, map: Option<&str>) -> (r: Result<
    PreviousSeasonMap,
    ParseError,
>)
    ensures
        result_view(r) == previous_map_of(week@, date.deep_view(), map.deep_view()),
{
    let number = match parse_week(week) {
        Some(number) => number,
        None => {
            return Err(ParseError::bad_text(week, "previous season week number"));
        },
    };
    let date = match date {
        Some(date) => date,
        None => {
            return Err(
                ParseError::element_not_found(SELECTOR_PREVIOUS_DATE, "previous season date"),
            );
        },
    };
    let day = match parse_short_date(date) {
        Some(day) => day,
        None => {
            return Err(ParseError::bad_date(date, "previous season date"));
        },
    };
    let map = match map {
        Some(map) => map,
        None => {
            return Err(
                ParseError::element_not_found(SELECTOR_PREVIOUS_MAP, "previous season map"),
            );
        },
    };
    Ok(PreviousSeasonMap { week: number, map: map.to_owned(), date: day })
}

/// The number of rows that begin a season.
pub open spec fn header_count(rows: Seq<SeasonRowView>) -> nat
    decreases rows.len(),
{
    if rows.len() == 0 {
        0
    } else if rows.last() is Header {
        header_count(rows.drop_last()) + 1
    } else {
        header_count(rows.drop_last())
    }
}

/// Whether a row is a week: a row of three cells that does not repeat the heads of the
/// columns.
pub open spec fn is_week_row(row: SeasonRowView) -> bool {
    row matches SeasonRowView::Data { week, .. } && !(week matches Some(text) && is_column_head(
        text,
    ))
}

/// The number of weeks between the row that begins the season at place `k` and the next
/// row that begins a season, or the end of the rows.
pub open spec fn week_count(rows: Seq<SeasonRowView>, k: int) -> nat
    decreases rows.len(),
{
    if rows.len() == 0 {
        0
    } else if is_week_row(rows.last()) && header_count(rows.drop_last()) == k + 1 {
        week_count(rows.drop_last(), k) + 1
    } else {
        week_count(rows.drop_last(), k)
    }
}

/// What holds of the seasons made so far, whatever the rows were.
pub open spec fn counted(rows: Seq<SeasonRowView>, made: Grouping) -> bool {
    &&& all_seasons(made).len() == header_count(rows)
    &&& made.open is None ==> made.closed.len() == 0
    &&& forall|k: int|
        0 <= k < all_seasons(made).len() ==> (#[trigger] all_seasons(made)[k]).maps.len()
            == week_count(rows, k)
}

/// No season that has not begun has weeks.
proof fn lemma_no_weeks_beyond(rows: Seq<SeasonRowView>, k: int)
    requires
        k >= header_count(rows),
    ensures
        week_count(rows, k) == 0,
    decreases rows.len(),
{
    if rows.len() > 0 {
        lemma_no_weeks_beyond(rows.drop_last(), k);
    }
}

proof fn lemma_counted(rows: Seq<SeasonRowView>)
    requires
        after_rows(rows) is Ok,
    ensures
        counted(rows, after_rows(rows)->Ok_0),
    decreases rows.len(),
{
    if rows.len() > 0 {
        let before = rows.drop_last();
        lemma_counted(before);
        let so_far = after_rows(before)->Ok_0;
        let made = after_rows(rows)->Ok_0;
        assert(after_row(so_far, rows.last()) == Ok::<Grouping, ParseErrorView>(made));
        let old_all = all_seasons(so_far);
        let new_all = all_seasons(made);
        assert(old_all.len() == header_count(before));
        match rows.last() {
            SeasonRowView::Header { title } => {
                assert(made.closed == old_all);
                assert(new_all =~= old_all.push(made.open->0));
                assert(made.open->0.maps.len() == 0);
                assert forall|k: int| 0 <= k < new_all.len() implies (#[trigger] new_all[k]).maps.len()
                    == week_count(rows, k) by {
                    if k < old_all.len() {
                        assert(new_all[k] == old_all[k]);
                        assert(week_count(rows, k) == week_count(before, k));
                    } else {
                        lemma_no_weeks_beyond(before, k);
                        assert(week_count(rows, k) == week_count(before, k));
                    }
                }
            },
            SeasonRowView::Data { week, date, map } => {
                match so_far.open {
                    None => {
                        assert(made == so_far);
                        assert(new_all.len() == 0);
                    },
                    Some(filling) => {
                        assert(week is Some);
                        if is_column_head(week->0) {
                            assert(made == so_far);
                            assert(!is_week_row(rows.last()));
                            assert forall|k: int| 0 <= k < new_all.len() implies (
                            #[trigger] new_all[k]).maps.len() == week_count(rows, k) by {
                                assert(week_count(rows, k) == week_count(before, k));
                            }
                        } else {
                            let found = previous_map_of(week->0, date, map)->Ok_0;
                            assert(is_week_row(rows.last()));
                            assert(made.closed == so_far.closed);
                            assert(made.open->0.maps == filling.maps.push(found));
                            assert(old_all =~= so_far.closed.push(filling));
                            assert(new_all =~= so_far.closed.push(made.open->0));
                            assert forall|k: int| 0 <= k < new_all.len() implies (
                            #[trigger] new_all[k]).maps.len() == week_count(rows, k) by {
                                if k < so_far.closed.len() {
                                    assert(new_all[k] == old_all[k]);
                                    assert(week_count(rows, k) == week_count(before, k));
                                } else {
                                    assert(old_all[k] == filling);
                                    assert(week_count(rows, k) == week_count(before, k) + 1);
                                }
                            }
                        }
                    },
                }
            },
            SeasonRowView::Other => {
                assert(made == so_far);
                assert forall|k: int| 0 <= k < new_all.len() implies (#[trigger] new_all[k]).maps.len()
                    == week_count(rows, k) by {
                    assert(week_count(rows, k) == week_count(before, k));
                }
            },
        }
    }
}

/// A table gives as many seasons as it has rows that begin one, and each season as many
/// weeks as there are week rows between its beginning and the next.
pub proof fn lemma_groups_follow_headers(rows: Seq<SeasonRowView>)
    requires
        grouped(rows) is Ok,
    ensures
        grouped(rows)->Ok_0.len() == header_count(rows),
        forall|k: int|
            0 <= k < header_count(rows) ==> (#[trigger] grouped(rows)->Ok_0[k]).maps.len()
                == week_count(rows, k),
{
    lemma_counted(rows);
}

/// Whether a row begins a season: its class is `top-bar` and nothing else.
pub open spec fn begins_season(row: scraper::ElementRef) -> bool {
    element_attr(row, "class"@) == Some("top-bar"@)
}

/// A row of the table of the seasons of the past, as the grouping looks at it.
pub open spec fn season_row(row: scraper::ElementRef) -> SeasonRowView {
    if begins_season(row) {
        SeasonRowView::Header { title: text_of(row) }
    } else if element_child_count(row) == 3 {
        SeasonRowView::Data {
            week: selected_text(row, SELECTOR_PREVIOUS_WEEK@),
            date: selected_text(row, SELECTOR_PREVIOUS_DATE@),
            map: selected_text(row, SELECTOR_PREVIOUS_MAP@),
        }
    } else {
        SeasonRowView::Other
    }
}

/// The rows of the table of the seasons of the past.
pub open spec fn season_rows(document: Seq<char>) -> Seq<SeasonRowView> {
    matches_in(document, SELECTOR_PREVIOUS@).map_values(|row: scraper::ElementRef| season_row(row))
}

/// The weeks of the running season, row by row.
pub open spec fn current_rows(document: Seq<char>) -> Seq<
    Result<CurrentSeasonMapView, ParseErrorView>,
> {
    matches_in(document, SELECTOR_CURRENT_ROW@).map_values(
        |row: scraper::ElementRef|
            current_map_of(
                selected_text(row, SELECTOR_CURRENT_WEEK@),
                selected_text(row, SELECTOR_CURRENT_MAP@),
                selected_text(row, SELECTOR_CURRENT_DATE@),
                selected_text(row, SELECTOR_CURRENT_DATE_ALT@),
            ),
    )
}

/// The maps of a page. The number of the running season is read first, then its weeks
/// row by row, then the seasons of the past. The first part that is missing or
/// malformed, in this order, fails the page.
pub open spec fn maps_page(document: Seq<char>) -> Result<MapHistoryView, ScrapeErrorView> {
    let season = current_season(selected_text(root_of(document), SELECTOR_CURRENT_SEASON@));
    let current = collected(current_rows(document));
    let previous = grouped(season_rows(document));
    if season is Err {
        Err(ScrapeErrorView::Parse(season->Err_0))
    } else if current is Err {
        Err(ScrapeErrorView::Parse(current->Err_0))
    } else if previous is Err {
        Err(ScrapeErrorView::Parse(previous->Err_0))
    } else {
        Ok(
            MapHistoryView {
                current: CurrentSeasonMapListView { season: season->Ok_0, maps: current->Ok_0 },
                previous: previous->Ok_0,
            },
        )
    }
}

impl MapHistoryParser {
    #[verifier::loop_isolation(false)]
    fn current(&self, page: &Document) -> (r: Result<Vec<CurrentSeasonMap>, ParseError>)
        ensures
            result_view(r) == collected(current_rows(page@)),
    {
        proof {
            use_type_invariant(self);
        }
        let rows = page.select(&self.selector_current_row);
        let ghost items = current_rows(page@);
        let mut out: Vec<CurrentSeasonMap> = Vec::new();
        let mut i: usize = 0;
        assert(items.take(0) =~= Seq::empty());
        assert(out.deep_view() =~= Seq::empty());
        while i < rows.len()
            invariant
                i <= rows.len(),
                collected(items.take(i as int)) == Ok::<Seq<CurrentSeasonMapView>, ParseErrorView>(
                    out.deep_view(),
                ),
            decreases rows.len() - i,
        {
            let row = rows[i];
            let week = current_map_from_cells(
                self.selector_current_week.select_text(row),
                self.selector_current_map.select_text(row),
                self.selector_current_date.select_text(row),
                self.selector_current_date_alt.select_text(row),
            );
            match push_row(&mut out, week, Ghost(items), Ghost(i as int)) {
                Ok(_) => {},
                Err(e) => {
                    return Err(e);
                },
            }
            i += 1;
        }
        assert(items.take(i as int) =~= items);
        Ok(out)
    }

    #[verifier::loop_isolation(false)]
    fn previous(&self, page: &Document) -> (r: Result<Vec<PreviousSeasonMapList>, ParseError>)
        ensures
            result_view(r) == grouped(season_rows(page@)),
    {
        proof {
            use_type_invariant(self);
        }
        let found = page.select(&self.selector_previous);
        let mut rows: Vec<SeasonRow> = Vec::new();
        let mut i: usize = 0;
        while i < found.len()
            invariant
                i <= found.len(),
                rows.len() == i,
                forall|j: int|
                    0 <= j < i ==> (#[trigger] rows@[j]).deep_view() == season_row(found@[j]),
            decreases found.len() - i,
        {
            let row = found[i];
            let class = attr(row, "class");
            let begins = match class {
                Some(class) => str_eq(class, "top-bar"),
                None => false,
            };
            if begins {
                rows.push(SeasonRow::Header { title: first_text_of(row) });
            } else if child_element_count(row) == 3 {
                rows.push(
                    SeasonRow::Data {
                        week: self.selector_previous_week.select_text(row),
                        date: self.selector_previous_date.select_text(row),
                        map: self.selector_previous_map.select_text(row),
                    },
                );
            } else {
                rows.push(SeasonRow::Other);
            }
            i += 1;
        }
        assert(rows.deep_view() =~= season_rows(page@));
        group_seasons(&rows)
    }
}

impl Parser for MapHistoryParser {
    type Output = MapHistory;

    open spec fn page(&self, document: Seq<char>) -> Result<MapHistoryView, ScrapeErrorView> {
        maps_page(document)
    }

    fn parse(&self, document: &str) -> (r: Result<MapHistory, ScrapeError>) {
        proof {
            use_type_invariant(self);
        }
        let page = Document::parse(document);
        let season = match current_season_from(
            self.selector_current_season.select_text(page.root()),
        ) {
            Ok(season) => season,
            Err(e) => {
                return Err(ScrapeError::Parse(e));
            },
        };
        let maps = match self.current(&page) {
            Ok(maps) => maps,
            Err(e) => {
                return Err(ScrapeError::Parse(e));
            },
        };
        let previous = match self.previous(&page) {
            Ok(previous) => previous,
            Err(e) => {
                return Err(ScrapeError::Parse(e));
            },
        };
        Ok(MapHistory { current: CurrentSeasonMapList { season, maps }, previous })
    }
}

} // verus!
