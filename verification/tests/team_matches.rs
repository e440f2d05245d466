use ugc_scraper::data::{MatchResult, TeamMatches, TeamRef, TeamSeason, TeamSeasonMatch};
use ugc_scraper::error::{ParseError, ScrapeError};
use ugc_scraper::parser::team_matches::{
    classify_match, match_from_cells, mode_in_title, score_from,
};
use ugc_scraper::parser::{Parser, TeamMatchesParser};
use ugc_scraper::vocabulary::GameMode;

fn team(name: &str, id: u32) -> TeamRef {
    TeamRef { name: name.to_string(), id }
}

fn text(s: &str) -> Option<String> {
    Some(s.to_string())
}

#[test]
fn classification_over_all_eight_cases() {
    let rival = || Some(team("Rival", 7));
    let points = || text("3");
    for (opponent, has_points, id, expected) in [
        (None, false, None, MatchResult::ByeWeek),
        (None, false, Some(9), MatchResult::ByeWeek),
        (None, true, None, MatchResult::ByeWeek),
        (None, true, Some(9), MatchResult::ByeWeek),
        (
            rival(),
            false,
            None,
            MatchResult::Unknown { opponent: team("Rival", 7), score: 2, score_opponent: 1 },
        ),
        (
            rival(),
            true,
            None,
            MatchResult::Unknown { opponent: team("Rival", 7), score: 2, score_opponent: 1 },
        ),
        (
            rival(),
            false,
            Some(9),
            MatchResult::Pending { id: 9, opponent: team("Rival", 7), score: 2, score_opponent: 1 },
        ),
        (
            rival(),
            true,
            Some(9),
            MatchResult::Played {
                id: 9,
                opponent: team("Rival", 7),
                score: 2,
                score_opponent: 1,
                match_points: "3".to_string(),
                match_points_opponent: "1.5".to_string(),
            },
        ),
    ] {
        let first = if has_points { points() } else { None };
        let second = if has_points { text("1.5") } else { None };
        assert_eq!(classify_match(opponent, first, second, id, 2, 1), expected);
    }
}

#[test]
fn classification_with_one_of_two_points() {
    assert_eq!(
        classify_match(Some(team("Rival", 7)), text("3"), None, Some(9), 2, 1),
        MatchResult::ByeWeek
    );
    assert_eq!(
        classify_match(Some(team("Rival", 7)), None, text("3"), Some(9), 2, 1),
        MatchResult::ByeWeek
    );
    assert_eq!(
        classify_match(Some(team("Rival", 7)), None, text("3"), None, 2, 1),
        MatchResult::Unknown { opponent: team("Rival", 7), score: 2, score_opponent: 1 }
    );
}

#[test]
fn mode_is_the_first_word_that_spells_one() {
    assert_eq!(mode_in_title("TF2 Highlander Season 12"), Some(GameMode::Highlander));
    assert_eq!(mode_in_title("Season 12 6v6 9v9"), Some(GameMode::Sixes));
    assert_eq!(mode_in_title("9v9"), Some(GameMode::Highlander));
    assert_eq!(mode_in_title("TF2 Season 12"), None);
    assert_eq!(mode_in_title(""), None);
    assert_eq!(mode_in_title("  "), None);
}

#[test]
fn score_defaults_to_nothing() {
    assert_eq!(score_from(" 4 "), 4);
    assert_eq!(score_from("x"), 0);
    assert_eq!(score_from(""), 0);
    assert_eq!(score_from("300"), 0);
}

fn row(
    opponent: Option<(Option<&str>, &str)>,
    scores: Option<&str>,
    points: Option<&str>,
    points_opponent: Option<&str>,
    id: Option<u32>,
) -> Result<TeamSeasonMatch, ParseError> {
    match_from_cells(
        Some("Platinum"),
        Some("3"),
        Some("Mon, Feb 3"),
        Some("Home"),
        opponent,
        Some("pl_upward"),
        scores,
        points,
        points_opponent,
        id,
    )
}

#[test]
fn week_of_a_season() {
    assert_eq!(
        row(Some((Some("Rival"), "team_page.cfm?clan_id=7")), Some("(2 - 1)"), Some("3"), Some("0.5"), Some(9)),
        Ok(TeamSeasonMatch {
            division: "Platinum".to_string(),
            week: 3,
            date: "Mon, Feb 3".to_string(),
            side: "Home".to_string(),
            result: MatchResult::Played {
                id: 9,
                opponent: team("Rival", 7),
                score: 2,
                score_opponent: 1,
                match_points: "3".to_string(),
                match_points_opponent: "0.5".to_string(),
            },
            map: "pl_upward".to_string(),
        })
    );
    assert_eq!(row(None, Some("-"), None, None, None).unwrap().result, MatchResult::ByeWeek);
    assert_eq!(
        row(Some((None, "x=7")), Some("((2-x))"), None, None, None).unwrap().result,
        MatchResult::Unknown { opponent: team("", 7), score: 2, score_opponent: 0 }
    );
}

#[test]
fn week_of_a_season_fails_on_its_first_malformed_part() {
    assert_eq!(
        row(Some((None, "x")), Some("2 1"), Some("three"), Some("one"), None),
        Err(ParseError::InvalidText { text: "three".to_string(), role: "match points" })
    );
    assert_eq!(
        row(Some((None, "x")), Some("2 1"), Some("3"), Some("one"), None),
        Err(ParseError::InvalidText { text: "one".to_string(), role: "match points opponent" })
    );
    assert_eq!(
        row(Some((None, "x")), Some("(2 1)"), Some("3"), Some("1e2"), None),
        Err(ParseError::InvalidText { text: "2 1".to_string(), role: "match scores" })
    );
    assert_eq!(
        row(Some((None, "x")), Some("2-1"), Some("3"), Some("-.5"), None),
        Err(ParseError::InvalidLink { link: "x".to_string(), role: "team id" })
    );
    assert_eq!(
        row(None, None, None, None, None),
        Err(ParseError::ElementNotFound { selector: "td:nth-child(8)", role: "match scores" })
    );
    assert_eq!(
        match_from_cells(None, None, None, None, None, None, None, None, None, None),
        Err(ParseError::ElementNotFound { selector: "td:nth-child(1) small", role: "match division" })
    );
    assert_eq!(
        match_from_cells(Some(""), None, None, None, None, None, None, None, None, None),
        Err(ParseError::ElementNotFound { selector: "td:nth-child(2) small", role: "match week" })
    );
    assert_eq!(
        match_from_cells(Some(""), Some("w"), None, None, None, None, None, None, None, None),
        Err(ParseError::InvalidText { text: "w".to_string(), role: "match week" })
    );
    assert_eq!(
        match_from_cells(Some(""), Some("0"), None, None, None, None, None, None, None, None),
        Err(ParseError::InvalidText { text: "0".to_string(), role: "match week" })
    );
    assert_eq!(
        match_from_cells(Some(""), Some("1"), None, None, None, None, None, None, None, None),
        Err(ParseError::ElementNotFound { selector: "td:nth-child(3) small", role: "match date" })
    );
    assert_eq!(
        match_from_cells(Some(""), Some("1"), Some(""), None, None, None, None, None, None, None),
        Err(ParseError::ElementNotFound { selector: "td:nth-child(4) small", role: "match side" })
    );
    assert_eq!(
        match_from_cells(Some(""), Some("1"), Some(""), Some(""), None, None, None, None, None, None),
        Err(ParseError::ElementNotFound { selector: "td:nth-child(7)", role: "match map" })
    );
}

fn game(week: &str, opponent: &str, scores: &str, points: &str, link: &str) -> String {
    format!(
        r#"<tr><td><small>Platinum</small></td><td><small>{week}</small></td>
<td><small>Mon, Feb 3</small></td><td><small>Home</small></td><td>vs</td>
<td>{opponent}</td><td>pl_upward</td><td>{scores}</td>{points}<td>{link}</td></tr>"#
    )
}

fn season(title: &str, games: &str) -> String {
    format!(
        r#"<table class="table table-condensed table-striped">
<thead><tr><th><h4>{title}</h4></th></tr></thead>
<tbody class="heads"><tr><td>Division</td></tr></tbody>
<tbody>{games}<tr><td>totals</td></tr></tbody></table>"#
    )
}

fn page(seasons: &str) -> String {
    format!(
        r#"<html><body><div class="container"><div class="col-md-9">
<h2><b>Some Team</b><span class="pull-right"><a href="team_page.cfm?clan_id=7861">profile</a></span></h2>
{seasons}</div></div></body></html>"#
    )
}

#[test]
fn matches_page_gives_seasons_and_team() {
    let played = game(
        "1",
        r#"<a href="team_page.cfm?clan_id=7">Rival</a>"#,
        "(4 - 2)",
        "<td><small>3</small></td><td><small>1</small></td>",
        r#"<a href="matchpage_tf2h.cfm?mid=116246">details</a>"#,
    );
    let pending = game(
        "2",
        r#"<a href="team_page.cfm?clan_id=8">Other</a>"#,
        "-",
        "<td></td><td></td>",
        r#"<a href="matchpage_tf2h.cfm?mid=116300">details</a>"#,
    );
    let unknown = game("3", r#"<a href="team_page.cfm?clan_id=9">Old</a>"#, "1-0", "", "");
    let bye = game("4", "", "-", "", "");
    let first = season("TF2 Highlander <b>Season 12</b>", &format!("{played}{pending}{unknown}{bye}"));
    let second = season("6v6 <b>Season 3</b>", "");
    let parser = TeamMatchesParser::new().expect("selectors");
    assert_eq!(
        parser.parse(&page(&format!("{first}{second}"))),
        Ok(TeamMatches {
            team: team("Some Team", 7861),
            seasons: vec![
                TeamSeason {
                    season: 12,
                    format: GameMode::Highlander,
                    matches: vec![
                        TeamSeasonMatch {
                            division: "Platinum".to_string(),
                            week: 1,
                            date: "Mon, Feb 3".to_string(),
                            side: "Home".to_string(),
                            result: MatchResult::Played {
                                id: 116246,
                                opponent: team("Rival", 7),
                                score: 4,
                                score_opponent: 2,
                                match_points: "3".to_string(),
                                match_points_opponent: "1".to_string(),
                            },
                            map: "pl_upward".to_string(),
                        },
                        TeamSeasonMatch {
                            division: "Platinum".to_string(),
                            week: 2,
                            date: "Mon, Feb 3".to_string(),
                            side: "Home".to_string(),
                            result: MatchResult::Pending {
                                id: 116300,
                                opponent: team("Other", 8),
                                score: 0,
                                score_opponent: 0,
                            },
                            map: "pl_upward".to_string(),
                        },
                        TeamSeasonMatch {
                            division: "Platinum".to_string(),
                            week: 3,
                            date: "Mon, Feb 3".to_string(),
                            side: "Home".to_string(),
                            result: MatchResult::Unknown {
                                opponent: team("Old", 9),
                                score: 1,
                                score_opponent: 0,
                            },
                            map: "pl_upward".to_string(),
                        },
                        TeamSeasonMatch {
                            division: "Platinum".to_string(),
                            week: 4,
                            date: "Mon, Feb 3".to_string(),
                            side: "Home".to_string(),
                            result: MatchResult::ByeWeek,
                            map: "pl_upward".to_string(),
                        },
                    ],
                },
                TeamSeason { season: 3, format: GameMode::Sixes, matches: vec![] },
            ],
        })
    );
}

#[test]
fn matches_page_fails_on_what_is_missing() {
    let parser = TeamMatchesParser::new().expect("selectors");
    assert_eq!(
        parser.parse("<html></html>"),
        Err(ScrapeError::Parse(ParseError::ElementNotFound {
            selector: "h2 > span.pull-right > a[href^=\"team_page.cfm\"]",
            role: "match team link",
        }))
    );
    assert_eq!(
        parser.parse(&page(&season("Chess <b>Season 1</b>", ""))),
        Err(ScrapeError::Parse(ParseError::InvalidText {
            text: "Chess".to_string(),
            role: "season format",
        }))
    );
    assert_eq!(
        parser.parse(&page(&season("9v9 <b>Season one</b>", ""))),
        Err(ScrapeError::Parse(ParseError::InvalidText {
            text: "Season one".to_string(),
            role: "season title",
        }))
    );
    let bad = game("x", "", "-", "", "");
    assert_eq!(
        parser.parse(&page(&season("9v9 <b>Season 1</b>", &bad))),
        Err(ScrapeError::Parse(ParseError::InvalidText {
            text: "x".to_string(),
            role: "match week",
        }))
    );
}

#[test]
fn results_name_their_match_and_their_opponent() {
    let rival = team("Rival", 7);
    let played = MatchResult::Played {
        id: 9,
        opponent: team("Rival", 7),
        score: 2,
        score_opponent: 1,
        match_points: "3".to_string(),
        match_points_opponent: "1".to_string(),
    };
    let pending = MatchResult::Pending { id: 8, opponent: team("Rival", 7), score: 0, score_opponent: 0 };
    let unknown = MatchResult::Unknown { opponent: team("Rival", 7), score: 0, score_opponent: 0 };
    assert_eq!((played.match_id(), played.opponents()), (Some(9), Some(&rival)));
    assert_eq!((pending.match_id(), pending.opponents()), (Some(8), Some(&rival)));
    assert_eq!((unknown.match_id(), unknown.opponents()), (None, Some(&rival)));
    assert_eq!((MatchResult::ByeWeek.match_id(), MatchResult::ByeWeek.opponents()), (None, None));
}

#[test]
fn weeks_of_a_season_ascend() {
    let rows = format!(
        "{}{}{}{}",
        game("3", r#"<a href="team_page.cfm?clan_id=3">c</a>"#, "-", "", ""),
        game("1", r#"<a href="team_page.cfm?clan_id=1">a</a>"#, "-", "", ""),
        game("3", r#"<a href="team_page.cfm?clan_id=4">d</a>"#, "-", "", ""),
        game("2", r#"<a href="team_page.cfm?clan_id=2">b</a>"#, "-", "", "")
    );
    let parser = TeamMatchesParser::new().expect("selectors");
    let found = parser.parse(&page(&season("9v9 <b>Season 1</b>", &rows))).unwrap();
    let order: Vec<(u8, u32)> = found.seasons[0]
        .matches
        .iter()
        .map(|game| (game.week, game.result.opponents().unwrap().id))
        .collect();
    assert_eq!(order, vec![(1, 1), (2, 2), (3, 3), (3, 4)]);
    let none = game("0", "", "-", "", "");
    assert_eq!(
        parser.parse(&page(&season("9v9 <b>Season 1</b>", &none))),
        Err(ScrapeError::Parse(ParseError::InvalidText {
            text: "0".to_string(),
            role: "match week",
        }))
    );
}
