use ugc_scraper::data::{MatchInfo, TeamRef};
use ugc_scraper::error::{ParseError, ScrapeError};
use ugc_scraper::parser::match_page::{match_from_parts, mode_of_heading};
use ugc_scraper::parser::{MatchPageParser, Parser};
use ugc_scraper::vocabulary::GameMode;

fn page(heading: &str, comment: &str, results: &str) -> String {
    format!(
        r#"<html><body>
<h3 class="page-header"><strong class="styleColor">{heading}</strong></h3>
<a class="btn-large" href="team_page.cfm?clan_id=1">not this one</a>
<h4 class="text-success text-center"><b>pl_upward</b></h4>
<p class="muted text-center nomargin"><small><b>3</b><b>Mon, Feb 3</b></small></p>
<div class="row-fluid"><div class="col-md-12">{comment}</div></div>
{results}
</body></html>"#
    )
}

fn result(name: &str, id: u32, score: &str) -> String {
    format!(
        r#"<table class="table table-condensed table-bordered"><tbody><tr><th>Team</th><th>Score</th></tr>
<tr><td><a href="team_page.cfm?clan_id={id}">{name}</a></td><td>{score}</td></tr></tbody></table>"#
    )
}

const COMMENT: &str = r#"<div class="white-row-light-small"><p><span class="text-success">Admin</span> wrote: <br> good game </p></div>"#;

fn parse(document: &str) -> Result<MatchInfo, ScrapeError> {
    MatchPageParser::new().expect("selectors").parse(document)
}

#[test]
fn match_page_gives_the_whole_match() {
    let results = format!("{}{}", result("Home Team", 7, "4"), result("Away Team", 8, " 2 "));
    assert_eq!(
        parse(&page("TF2 Highlander", COMMENT, &results)),
        Ok(MatchInfo {
            comment: Some("good game".to_string()),
            comment_author: Some("Admin".to_string()),
            team_home: TeamRef { name: "Home Team".to_string(), id: 7 },
            team_away: TeamRef { name: "Away Team".to_string(), id: 8 },
            score_home: 4,
            score_away: 2,
            map: "pl_upward".to_string(),
            week: 3,
            format: GameMode::Highlander,
            default_date: "Mon, Feb 3".to_string(),
        })
    );
}

#[test]
fn match_page_of_the_older_kind() {
    let results = format!("{}{}", result("Home Team", 7, "0"), result("Away Team", 8, "255"));
    let info = parse(&page("UGC 6vs6 Match", "", &results)).unwrap();
    assert_eq!(info.format, GameMode::Sixes);
    assert_eq!(info.comment, None);
    assert_eq!(info.comment_author, None);
    assert_eq!((info.score_home, info.score_away), (0, 255));
}

#[test]
fn match_page_fails_on_the_first_part_that_is_missing() {
    let error = |document: &str| match parse(document) {
        Err(ScrapeError::Parse(e)) => e,
        other => panic!("{:?}", other),
    };
    let link = "a[href^=\"team_page\"]:not(.btn-large)";
    assert_eq!(
        error("<html></html>"),
        ParseError::ElementNotFound { selector: link, role: "home team link" }
    );
    assert_eq!(
        error(&page("9v9", "", &result("Home", 7, "4"))),
        ParseError::ElementNotFound { selector: link, role: "away team link" }
    );
    let results = format!("{}{}", result("Home", 7, "4"), result("Away", 8, "x"));
    assert_eq!(
        error(&page("9v9", "", &results)),
        ParseError::InvalidText { text: "x".to_string(), role: "away team score" }
    );
    assert_eq!(
        error(&page("Chess Match", "", &results)),
        ParseError::InvalidText { text: "Chess Match".to_string(), role: "match format" }
    );
    let results = format!("{}{}", result("", 7, "4"), result("Away", 8, "2"));
    assert_eq!(
        error(&page("9v9", "", &results)),
        ParseError::EmptyText {
            selector: ".table.table-condensed.table-bordered tr:nth-child(2) td:nth-child(1)",
            role: "home team name",
        }
    );
}

#[test]
fn heading_names_a_mode_as_a_whole_or_by_a_word() {
    assert_eq!(mode_of_heading("TF2 Highlander"), Some(GameMode::Highlander));
    assert_eq!(mode_of_heading("UGC Highlander Match"), Some(GameMode::Highlander));
    assert_eq!(mode_of_heading("Left 4 Dead 2 Versus League"), Some(GameMode::Left4Dead));
    assert_eq!(mode_of_heading("Left 4 Dead"), None);
}

#[test]
fn match_from_its_parts() {
    let full = |home_score, away_score| {
        match_from_parts(
            None,
            Some(""),
            Some("a=1"),
            Some("b=2"),
            Some("4v4"),
            Some("koth"),
            Some("12"),
            Some("day"),
            Some(Some("H")),
            Some(Some("A")),
            home_score,
            away_score,
        )
    };
    assert_eq!(
        full(Some(Some("1")), Some(Some("0"))),
        Ok(MatchInfo {
            comment: Some("".to_string()),
            comment_author: None,
            team_home: TeamRef { name: "H".to_string(), id: 1 },
            team_away: TeamRef { name: "A".to_string(), id: 2 },
            score_home: 1,
            score_away: 0,
            map: "koth".to_string(),
            week: 12,
            format: GameMode::Fours,
            default_date: "day".to_string(),
        })
    );
    let score = ".table.table-condensed.table-bordered tr:nth-child(2) td:nth-child(2)";
    assert_eq!(
        full(None, None),
        Err(ParseError::ElementNotFound { selector: score, role: "home team score" })
    );
    assert_eq!(
        full(Some(None), None),
        Err(ParseError::EmptyText { selector: score, role: "home team score" })
    );
    assert_eq!(
        full(Some(Some("-1")), None),
        Err(ParseError::InvalidText { text: "-1".to_string(), role: "home team score" })
    );
    assert_eq!(
        full(Some(Some("1")), None),
        Err(ParseError::ElementNotFound { selector: score, role: "away team score" })
    );
    assert_eq!(
        full(Some(Some("1")), Some(None)),
        Err(ParseError::EmptyText { selector: score, role: "away team score" })
    );
    let partial = |home_link, away_link, format, map, week, date, home, away| {
        match_from_parts(None, None, home_link, away_link, format, map, week, date, home, away, None, None)
    };
    assert_eq!(
        partial(Some("a"), Some("b=2"), None, None, None, None, None, None),
        Err(ParseError::InvalidLink { link: "a".to_string(), role: "team id" })
    );
    assert_eq!(
        partial(Some("a=1"), Some("b=x"), None, None, None, None, None, None),
        Err(ParseError::InvalidLink { link: "b=x".to_string(), role: "team id" })
    );
    assert_eq!(
        partial(Some("a=1"), Some("b=2"), None, None, None, None, None, None),
        Err(ParseError::ElementNotFound {
            selector: "h3.page-header > strong.styleColor",
            role: "match format",
        })
    );
    assert_eq!(
        partial(Some("a=1"), Some("b=2"), Some("9v9"), None, None, None, None, None),
        Err(ParseError::ElementNotFound {
            selector: "h4.text-success.text-center > b",
            role: "match map",
        })
    );
    assert_eq!(
        partial(Some("a=1"), Some("b=2"), Some("9v9"), Some("m"), None, None, None, None),
        Err(ParseError::ElementNotFound {
            selector: "p.muted.text-center.nomargin > small > b:nth-child(1)",
            role: "match week",
        })
    );
    assert_eq!(
        partial(Some("a=1"), Some("b=2"), Some("9v9"), Some("m"), Some("w"), None, None, None),
        Err(ParseError::InvalidText { text: "w".to_string(), role: "match week" })
    );
    assert_eq!(
        partial(Some("a=1"), Some("b=2"), Some("9v9"), Some("m"), Some("0"), None, None, None),
        Err(ParseError::InvalidText { text: "0".to_string(), role: "match week" })
    );
    assert_eq!(
        partial(Some("a=1"), Some("b=2"), Some("9v9"), Some("m"), Some("1"), None, None, None),
        Err(ParseError::ElementNotFound {
            selector: "p.muted.text-center.nomargin > small > b:nth-child(2)",
            role: "match date",
        })
    );
    let name = ".table.table-condensed.table-bordered tr:nth-child(2) td:nth-child(1)";
    assert_eq!(
        partial(Some("a=1"), Some("b=2"), Some("9v9"), Some("m"), Some("1"), Some("d"), None, None),
        Err(ParseError::ElementNotFound { selector: name, role: "home team name" })
    );
    assert_eq!(
        partial(Some("a=1"), Some("b=2"), Some("9v9"), Some("m"), Some("1"), Some("d"), Some(Some("H")), None),
        Err(ParseError::ElementNotFound { selector: name, role: "away team name" })
    );
    assert_eq!(
        partial(Some("a=1"), Some("b=2"), Some("9v9"), Some("m"), Some("1"), Some("d"), Some(Some("H")), Some(None)),
        Err(ParseError::EmptyText { selector: name, role: "away team name" })
    );
}
