//! The weeks of a game mode, of the running season and of the seasons of the past, as one
//! list.

use crate::data::{
    CurrentSeasonMap, CurrentSeasonMapView, MapHistory, MapHistoryView, PreviousSeasonMapListView,
    PreviousSeasonMapView,
};
use crate::date::{append_year, date_in_layout, with_year, Date, DateFormat, DateView};
use crate::error::{invalid_date, result_view, ParseError, ParseErrorView};
use vstd::prelude::*;
use vstd::string::*;

verus! {

/// The layout of the days of the running season, once their year is written behind them.
pub const CURRENT_DATE_FORMAT: &'static str =
    "[weekday case_sensitive:false repr:short], [month repr:short] [day padding:none] [year]";

/// One week of one season, with its map and its day.
#[derive(Debug, Clone, PartialEq, Eq)]
pub struct Week<'a> {
    pub season: u8,
    pub week: u8,
    pub map: &'a str,
    pub date: Date,
}

/// What a `Week` holds.
pub struct WeekView {
    pub season: u8,
    pub week: u8,
    pub map: Seq<char>,
    pub date: DateView,
}

impl<'a> DeepView for Week<'a> {
    type V = WeekView;

    open spec fn deep_view(&self) -> WeekView {
        WeekView { season: self.season, week: self.week, map: self.map@, date: self.date.deep_view() }
    }
}

/// A week of the running season. The page leaves the year of its day out: `year` is
/// written behind the text of the day, and the two are read together.
pub open spec fn current_week(season: u8, map: CurrentSeasonMapView, year: int) -> Result<
    WeekView,
    ParseErrorView,
> {
    match date_in_layout(with_year(map.date, year), CURRENT_DATE_FORMAT@) {
        Some(date) => Ok(WeekView { season, week: map.week, map: map.map, date }),
        None => Err(invalid_date(map.date, "current season date"@)),
    }
}

/// A week of a season of the past.
pub open spec fn past_week(season: u8, map: PreviousSeasonMapView) -> Result<
    WeekView,
    ParseErrorView,
> {
    Ok(WeekView { season, week: map.week, map: map.map, date: map.date })
}

/// The weeks of the running season, in their order.
pub open spec fn current_weeks(history: MapHistoryView, year: int) -> Seq<
    Result<WeekView, ParseErrorView>,
> {
    history.current.maps.map_values(
        |map: CurrentSeasonMapView| current_week(history.current.season, map, year),
    )
}

/// The weeks of one season of the past, in their order.
pub open spec fn season_weeks(season: PreviousSeasonMapListView) -> Seq<
    Result<WeekView, ParseErrorView>,
> {
    season.maps.map_values(|map: PreviousSeasonMapView| past_week(season.season, map))
}

/// The weeks of seasons of the past, season after season.
pub open spec fn past_weeks(seasons: Seq<PreviousSeasonMapListView>) -> Seq<
    Result<WeekView, ParseErrorView>,
>
    decreases seasons.len(),
{
    if seasons.len() == 0 {
        Seq::empty()
    } else {
        past_weeks(seasons.drop_last()) + season_weeks(seasons.last())
    }
}

/// All the weeks of a game mode: those of the running season, then those of the seasons
/// of the past. A week of the running season whose day cannot be read is a failure in
/// its place and fails no other week.
pub open spec fn all_weeks(history: MapHistoryView, year: int) -> Seq<
    Result<WeekView, ParseErrorView>,
> {
    current_weeks(history, year) + past_weeks(history.previous)
}

/// The views of a list of results.
pub open spec fn result_views<'a>(weeks: Seq<Result<Week<'a>, ParseError>>) -> Seq<
    Result<WeekView, ParseErrorView>,
> {
    weeks.map_values(|week: Result<Week<'a>, ParseError>| result_view(week))
}

fn week_of_current<'a>(
    season: u8,
    map: &'a CurrentSeasonMap,
    year: u16,
    format: &Option<DateFormat>,
) -> (r: Result<Week<'a>, ParseError>)
    requires
        match format {
            Some(format) => format@ == CURRENT_DATE_FORMAT@,
            None => !DateFormat::is_layout(CURRENT_DATE_FORMAT@),
        },
    ensures
        result_view(r) == current_week(season, map.deep_view(), year as int),
{
    let date = match format {
        Some(format) => format.parse(append_year(map.date.as_str(), year as i32).as_str()),
        None => None,
    };
    match date {
        Some(date) => Ok(Week { season, week: map.week, map: map.map.as_str(), date }),
        None => Err(ParseError::bad_date(map.date.as_str(), "current season date")),
    }
}

impl MapHistory {
    /// All the weeks of the game mode. `current_season_year` is the year in which the
    /// running season is played, which the page does not state.
    pub fn weeks(&self, current_season_year: u16) -> (r: Vec<Result<Week<'_>, ParseError>>)
        ensures
            result_views(r@) == all_weeks(self.deep_view(), current_season_year as int),
    {
        let format = DateFormat::compile(CURRENT_DATE_FORMAT);
        let ghost history = self.deep_view();
        let ghost year = current_season_year as int;
        let mut out: Vec<Result<Week<'_>, ParseError>> = Vec::new();
        let mut i: usize = 0;
        assert(result_views(out@) =~= current_weeks(history, year).take(0));
        while i < self.current.maps.len()
            invariant
                i <= self.current.maps.len(),
                history == self.deep_view(),
                year == current_season_year as int,
                match format {
                    Some(format) => format@ == CURRENT_DATE_FORMAT@,
                    None => !DateFormat::is_layout(CURRENT_DATE_FORMAT@),
                },
                result_views(out@) == current_weeks(history, year).take(i as int),
            decreases self.current.maps.len() - i,
        {
            let week = week_of_current(
                self.current.season,
                &self.current.maps[i],
                current_season_year,
                &format,
            );
            let ghost before = out@;
            out.push(week);
            proof {
                assert(history.current.maps[i as int] == self.current.maps@[i as int].deep_view());
                assert(result_views(out@) =~= result_views(before).push(result_view(week)));
                assert(current_weeks(history, year).take(i + 1) =~= current_weeks(
                    history,
                    year,
                ).take(i as int).push(current_weeks(history, year)[i as int]));
            }
            i += 1;
        }
        assert(current_weeks(history, year).take(i as int) =~= current_weeks(history, year));
        let mut s: usize = 0;
        assert(history.previous.take(0) =~= Seq::empty());
        assert(result_views(out@) =~= current_weeks(history, year) + past_weeks(
            history.previous.take(0),
        ));
        while s < self.previous.len()
            invariant
                s <= self.previous.len(),
                history == self.deep_view(),
                result_views(out@) == current_weeks(history, year) + past_weeks(
                    history.previous.take(s as int),
                ),
            decreases self.previous.len() - s,
        {
            let season = &self.previous[s];
            let ghost shown = season.deep_view();
            let ghost start = out@;
            assert(history.previous[s as int] == shown);
            assert(history.previous.take(s + 1).drop_last() =~= history.previous.take(s as int));
            let mut m: usize = 0;
            assert(result_views(out@) =~= result_views(start) + season_weeks(shown).take(0));
            while m < season.maps.len()
                invariant
                    m <= season.maps.len(),
                    shown == season.deep_view(),
                    result_views(out@) == result_views(start) + season_weeks(shown).take(m as int),
                decreases season.maps.len() - m,
            {
                let map = &season.maps[m];
                let week: Result<Week<'_>, ParseError> = Ok(
                    Week { season: season.season, week: map.week, map: map.map.as_str(), date: map.date },
                );
                let ghost before = out@;
                out.push(week);
                proof {
                    assert(shown.maps[m as int] == season.maps@[m as int].deep_view());
                    assert(result_views(out@) =~= result_views(before).push(result_view(week)));
                    assert(season_weeks(shown).take(m + 1) =~= season_weeks(shown).take(
                        m as int,
                    ).push(season_weeks(shown)[m as int]));
                    assert(result_views(out@) =~= result_views(start) + season_weeks(shown).take(
                        m + 1,
                    ));
                }
                m += 1;
            }
            assert(season_weeks(shown).take(m as int) =~= season_weeks(shown));
            assert(result_views(out@) =~= current_weeks(history, year) + past_weeks(
                history.previous.take(s + 1),
            ));
            s += 1;
        }
        assert(history.previous.take(s as int) =~= history.previous);
        out
    }
}

} // verus!
