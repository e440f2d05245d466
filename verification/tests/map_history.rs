use ugc_scraper::data::{
    CurrentSeasonMap, CurrentSeasonMapList, MapHistory, PreviousSeasonMap, PreviousSeasonMapList,
};
use ugc_scraper::date::Date;
use ugc_scraper::error::{ParseError, ScrapeError};
use ugc_scraper::parser::map_history::{
    current_map_from_cells, current_season_from, group_seasons, parse_short_date,
    previous_map_from_cells, SeasonRow,
};
use ugc_scraper::parser::{MapHistoryParser, Parser};
use ugc_scraper::weeks::Week;

fn date(year: i32, month: u8, day: u8) -> Date {
    Date::from_calendar_date(year, month, day).unwrap()
}

fn page(season: &str, current: &str, previous: &str) -> String {
    format!(
        r#"<html><body><div class="row"><div class="col"><div class="white-row-small">
<h4>Maps</h4><h5>{season}</h5>
<table class="table table-condensed table-responsive"><tbody>{current}</tbody></table>
<table class="table table-condensed table-bordered"><tbody><tr><th>skipped</th></tr>{previous}</tbody></table>
</div></div></div></body></html>"#
    )
}

const CURRENT: &str = r#"<tr><td>1</td><td>pl_upward</td><td>x</td><td><small>Mon, Jan 8</small></td></tr>
<tr><td>2</td><td>koth_product</td><td>x</td><td><small>Sat, Jan 13</small></td><td><small>Mon, Jan 15</small></td></tr>"#;

const PREVIOUS: &str = r#"<tr><td>1</td><td>1/2/17</td><td>before any season</td></tr>
<tr class="top-bar"><td colspan="3">Season 21</td></tr>
<tr><td>Week</td><td>Date</td><td>Map</td></tr>
<tr><td>1</td><td>1/16/17</td><td>pl_badwater</td></tr>
<tr><td colspan="3">a note</td></tr>
<tr><td>2</td><td>1/23/17</td><td>cp_steel</td></tr>
<tr class="top-bar"><td colspan="3">Season 20</td></tr>
<tr class="top-bar"><td colspan="3">Season 19</td></tr>
<tr><td>1</td><td>5/9/16</td><td>cp_gullywash</td></tr>"#;

fn parse(document: &str) -> Result<MapHistory, ScrapeError> {
    MapHistoryParser::new().expect("selectors").parse(document)
}

fn history() -> MapHistory {
    MapHistory {
        current: CurrentSeasonMapList {
            season: 42,
            maps: vec![
                CurrentSeasonMap {
                    week: 1,
                    map: "pl_upward".to_string(),
                    date: "Mon, Jan 8".to_string(),
                    na_date: None,
                },
                CurrentSeasonMap {
                    week: 2,
                    map: "koth_product".to_string(),
                    date: "Mon, Jan 15".to_string(),
                    na_date: Some("Sat, Jan 13".to_string()),
                },
            ],
        },
        previous: vec![
            PreviousSeasonMapList {
                season: 21,
                maps: vec![
                    PreviousSeasonMap { week: 1, map: "pl_badwater".to_string(), date: date(2017, 1, 16) },
                    PreviousSeasonMap { week: 2, map: "cp_steel".to_string(), date: date(2017, 1, 23) },
                ],
            },
            PreviousSeasonMapList { season: 20, maps: vec![] },
            PreviousSeasonMapList {
                season: 19,
                maps: vec![PreviousSeasonMap {
                    week: 1,
                    map: "cp_gullywash".to_string(),
                    date: date(2016, 5, 9),
                }],
            },
        ],
    }
}

#[test]
fn maps_page_gives_the_running_season_and_the_past() {
    assert_eq!(parse(&page("Season 42", CURRENT, PREVIOUS)), Ok(history()));
}

#[test]
fn maps_page_without_past_seasons() {
    let found = parse(&page(" Season42 ", "", "")).unwrap();
    assert_eq!(found.current, CurrentSeasonMapList { season: 42, maps: vec![] });
    assert_eq!(found.previous, vec![]);
}

#[test]
fn maps_page_fails_on_the_first_part_that_is_malformed() {
    let error = |document: &str| match parse(document) {
        Err(ScrapeError::Parse(e)) => e,
        other => panic!("{:?}", other),
    };
    assert_eq!(
        error("<html></html>"),
        ParseError::ElementNotFound {
            selector: "div.row > div > div.white-row-small > h5:nth-child(2), div.row-fluid > div > div.white-row-small > h4:first-child+h5",
            role: "current season number",
        }
    );
    assert_eq!(
        error(&page("Season forty", "", "")),
        ParseError::InvalidText { text: "forty".to_string(), role: "current season number" }
    );
    assert_eq!(
        error(&page("Season 42", "<tr><td>one</td></tr>", "")),
        ParseError::InvalidText { text: "one".to_string(), role: "current season week number" }
    );
    assert_eq!(
        error(&page("Season 42", "<tr><td>0</td></tr>", "")),
        ParseError::InvalidText { text: "0".to_string(), role: "current season week number" }
    );
    assert_eq!(
        previous_map_from_cells("0", Some("1/16/17"), Some("map")),
        Err(ParseError::InvalidText { text: "0".to_string(), role: "previous season week number" })
    );
    assert_eq!(
        error(&page("Season 42", "<tr><td>1</td><td>map</td></tr>", "")),
        ParseError::ElementNotFound {
            selector: "td:nth-child(4) small",
            role: "current season date",
        }
    );
    let previous = r#"<tr class="top-bar"><td>Season 21</td></tr><tr><td>1</td><td>16.1.17</td><td>map</td></tr>"#;
    assert_eq!(
        error(&page("Season 42", "", previous)),
        ParseError::InvalidDate { date: "16.1.17".to_string(), role: "previous season date" }
    );
    let previous = r#"<tr class="top-bar"><td>Season</td></tr>"#;
    assert_eq!(
        error(&page("Season 42", "", previous)),
        ParseError::InvalidText { text: "Season".to_string(), role: "previous season number" }
    );
}

#[test]
fn second_day_of_a_row_is_the_day_for_all() {
    assert_eq!(
        current_map_from_cells(Some("1"), Some("map"), Some("first"), Some("second")),
        Ok(CurrentSeasonMap {
            week: 1,
            map: "map".to_string(),
            date: "second".to_string(),
            na_date: Some("first".to_string()),
        })
    );
    assert_eq!(
        current_map_from_cells(Some("1"), Some("map"), Some("first"), None),
        Ok(CurrentSeasonMap {
            week: 1,
            map: "map".to_string(),
            date: "first".to_string(),
            na_date: None,
        })
    );
    assert_eq!(
        current_map_from_cells(None, None, None, Some("second")),
        Err(ParseError::ElementNotFound {
            selector: "td:nth-child(1)",
            role: "current season week number",
        })
    );
    assert_eq!(
        current_map_from_cells(Some("1"), None, None, Some("second")),
        Err(ParseError::ElementNotFound { selector: "td:nth-child(2)", role: "current season map" })
    );
    assert_eq!(current_season_from(Some("SeasonSeason 7")), Ok(7));
}

#[test]
fn short_dates_are_of_this_century() {
    assert_eq!(parse_short_date("1/16/17"), Some(date(2017, 1, 16)));
    assert_eq!(parse_short_date("12/31/99"), Some(date(2099, 12, 31)));
    assert_eq!(parse_short_date("2/29/16"), Some(date(2016, 2, 29)));
    assert_eq!(parse_short_date("2/29/17"), None);
    assert_eq!(parse_short_date("1/16/17/5"), Some(date(2017, 1, 16)));
    assert_eq!(parse_short_date("1/16/-1"), Some(date(1999, 1, 16)));
    assert_eq!(parse_short_date("1/16/8000"), None);
    assert_eq!(parse_short_date("1/16/2147483647"), None);
    assert_eq!(parse_short_date("1/16/-2147483648"), None);
    assert_eq!(parse_short_date("13/16/17"), None);
    assert_eq!(parse_short_date("1/16"), None);
    assert_eq!(parse_short_date("1"), None);
    assert_eq!(parse_short_date(""), None);
    assert_eq!(parse_short_date("1/ 16/17"), None);
}

fn header(title: &str) -> SeasonRow<'_> {
    SeasonRow::Header { title: Some(title) }
}

fn week(number: &'static str) -> SeasonRow<'static> {
    SeasonRow::Data { week: Some(number), date: Some("1/16/17"), map: Some("map") }
}

#[test]
fn seasons_follow_their_headers() {
    let rows = vec![
        week("1"),
        SeasonRow::Other,
        header("Season 3"),
        week("Week"),
        week("1"),
        SeasonRow::Other,
        week("2"),
        week("3"),
        header("Season 2"),
        header("Season Season 1"),
        week("7"),
    ];
    let seasons = group_seasons(&rows).unwrap();
    let shape: Vec<(u8, usize)> = seasons.iter().map(|s| (s.season, s.maps.len())).collect();
    assert_eq!(shape, vec![(3, 3), (2, 0), (1, 1)]);
    assert_eq!(seasons[2].maps[0].week, 7);
    assert_eq!(group_seasons(&Vec::new()), Ok(vec![]));
    assert_eq!(group_seasons(&vec![week("x"), SeasonRow::Other]), Ok(vec![]));
    assert_eq!(
        group_seasons(&vec![header("Season 1")]),
        Ok(vec![PreviousSeasonMapList { season: 1, maps: vec![] }])
    );
}

#[test]
fn seasons_fail_on_their_first_malformed_row() {
    assert_eq!(
        group_seasons(&vec![header("Season 1"), week("x"), header("y")]),
        Err(ParseError::InvalidText { text: "x".to_string(), role: "previous season week number" })
    );
    assert_eq!(
        group_seasons(&vec![SeasonRow::Header { title: None }]),
        Err(ParseError::InvalidText { text: "".to_string(), role: "previous season number" })
    );
    assert_eq!(
        group_seasons(&vec![
            header("Season 1"),
            SeasonRow::Data { week: None, date: None, map: None }
        ]),
        Err(ParseError::ElementNotFound {
            selector: "td:nth-child(1)",
            role: "previous season week number",
        })
    );
    assert_eq!(
        previous_map_from_cells("1", None, None),
        Err(ParseError::ElementNotFound { selector: "td:nth-child(2)", role: "previous season date" })
    );
    assert_eq!(
        previous_map_from_cells("1", Some("1/16/17"), None),
        Err(ParseError::ElementNotFound { selector: "td:nth-child(3)", role: "previous season map" })
    );
}

#[test]
fn weeks_of_all_seasons_in_one_list() {
    let history = history();
    let weeks = history.weeks(2024);
    assert_eq!(
        weeks,
        vec![
            Ok(Week { season: 42, week: 1, map: "pl_upward", date: date(2024, 1, 8) }),
            Ok(Week { season: 42, week: 2, map: "koth_product", date: date(2024, 1, 15) }),
            Ok(Week { season: 21, week: 1, map: "pl_badwater", date: date(2017, 1, 16) }),
            Ok(Week { season: 21, week: 2, map: "cp_steel", date: date(2017, 1, 23) }),
            Ok(Week { season: 19, week: 1, map: "cp_gullywash", date: date(2016, 5, 9) }),
        ]
    );
    let mut broken = history.clone();
    broken.current.maps[0].date = "Jan 8".to_string();
    let weeks = broken.weeks(2024);
    assert_eq!(
        weeks[0],
        Err(ParseError::InvalidDate { date: "Jan 8".to_string(), role: "current season date" })
    );
    assert_eq!(weeks.len(), 5);
    assert!(weeks[1].is_ok());
}
