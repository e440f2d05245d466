use ugc_scraper::data::{Membership, NameChange, Record, Team};
use ugc_scraper::date::{Date, DateFormat, Timestamp};
use ugc_scraper::error::{ParseError, ScrapeError};
use ugc_scraper::parser::team::{
    member_from_cells, member_since, name_change_from_cells, record_from_cells, since_from,
    team_mode, team_names,
};
use ugc_scraper::parser::{
    Parser, TeamParser, DATE_FORMAT, MEMBER_DATE_ALT_FORMAT, MEMBER_DATE_FORMAT,
};
use ugc_scraper::steam::SteamID;
use ugc_scraper::vocabulary::GameMode;

fn date(year: i32, month: u8, day: u8) -> Date {
    Date::from_calendar_date(year, month, day).unwrap()
}

fn page(header: &str, side: &str, roster: &str, names: &str) -> String {
    format!(
        r#"<html><body><div class="container">
<div class="col-md-12">{header}</div>
<div class="col-md-3"><div class="white-row-small">{side}</div></div>
<div class="col-md-9">
  <div class="white-row-small"><div class="row-fluid"><div class="col-md-12">{roster}</div></div></div>
  <div class="filler"></div>
  <div class="white-row-small"><div class="table-responsive"><table><tbody>{names}</tbody></table></div></div>
</div>
</div></body></html>"#
    )
}

const HEADER: &str = r#"<h1><span>TAG</span> <b>Team Name</b></h1>
<a href="/image"><img data-cfsrc="/img/logo.png" src="/img/blank.gif"></a>
<a class="btn btn-xs btn-default" href="http://http://steamcommunity.com/groups/some_team">Group</a>"#;

const SIDE: &str = r#"<h5><span class="text-danger"><b>TF2 Highlander</b></span></h5>
<h5><b>Platinum</b></h5>
<p><small><b>Eastern</b></small></p>
<p><small>First line
second line</small></p>
<p><span class="text-warning"> Season 12 Champion <br> <i>Season 13 Champion</i> </span></p>
<div class="table-responsive"><table><tbody>
<tr><td><small><span><b>14</b></span></small></td><td><small>Platinum</small></td><td>7-1</td></tr>
<tr><td><small><span><b>13</b></span></small></td><td><small>Gold</small></td><td> 5-3 </td></tr>
</tbody></table></div>"#;

const ROSTER: &str = r#"<div class="white-row-light-small">
  <b><a href="players_page.cfm?player_id=76561198024494988">Player One</a></b>
  <span class="tinytext">Leader
    <em>Jan 5, 2015 / 7:30 PM (ET)</em></span>
</div>
<div class="white-row-light-small">
  <b><a href="players_page.cfm?player_id=76561198049312442">Player Two</a></b>
  <span class="tinytext">Member <em>(Mar 2, 2014 - Apr 3, 2014)</em></span>
</div>"#;

const NAMES: &str = r#"<tr><td><small>OLD</small></td><td><small>Old Name</small></td><td><small>TAG</small></td><td><small>Team Name</small></td><td><small>3/14/2016</small></td></tr>
<tr><td><small> </small></td><td><small>Older Name</small></td><td></td><td><small>Old Name</small></td><td><small>12/1/2015</small></td></tr>"#;

fn parse(document: &str) -> Result<Team, ScrapeError> {
    TeamParser::new().expect("selectors").parse(document)
}

#[test]
fn team_page_gives_the_whole_team() {
    let team = parse(&page(HEADER, SIDE, ROSTER, NAMES)).unwrap();
    assert_eq!(
        team,
        Team {
            name: "Team Name".to_string(),
            tag: "TAG".to_string(),
            image: "/img/logo.png".to_string(),
            format: GameMode::Highlander,
            region: None,
            timezone: Some("Eastern".to_string()),
            steam_group: Some("http://steamcommunity.com/groups/some_team".to_string()),
            division: "Platinum".to_string(),
            description: "First line second line".to_string(),
            titles: vec!["Season 12 Champion".to_string(), "Season 13 Champion".to_string()],
            members: vec![
                Membership {
                    name: "Player One".to_string(),
                    steam_id: SteamID { id: 76561198024494988 },
                    role: "Leader".to_string(),
                    since: Timestamp::new(date(2015, 1, 5), 19, 30, 0, -5).unwrap(),
                },
                Membership {
                    name: "Player Two".to_string(),
                    steam_id: SteamID { id: 76561198049312442 },
                    role: "Member".to_string(),
                    since: Timestamp::new(date(2014, 3, 2), 0, 0, 0, 0).unwrap(),
                },
            ],
            results: vec![
                Record { season: 14, division: "Platinum".to_string(), wins: 7, losses: 1 },
                Record { season: 13, division: "Gold".to_string(), wins: 5, losses: 3 },
            ],
            name_changes: vec![
                NameChange {
                    from_tag: "".to_string(),
                    from: "Older Name".to_string(),
                    to_tag: "".to_string(),
                    to: "Old Name".to_string(),
                    date: date(2015, 12, 1),
                },
                NameChange {
                    from_tag: "OLD".to_string(),
                    from: "Old Name".to_string(),
                    to_tag: "TAG".to_string(),
                    to: "Team Name".to_string(),
                    date: date(2016, 3, 14),
                },
            ],
        }
    );
}

fn parse_error(document: &str) -> ParseError {
    match parse(document) {
        Err(ScrapeError::Parse(e)) => e,
        other => panic!("{:?}", other),
    }
}

#[test]
fn team_page_without_name_and_tag_lacks_the_name() {
    let missing = Err(ScrapeError::Parse(ParseError::ElementNotFound {
        selector: ".container .col-md-12 h1 > b",
        role: "team name",
    }));
    let header = r#"<h1></h1><a><img src="/img/logo.png"></a>"#;
    assert_eq!(parse(&page(header, SIDE, ROSTER, NAMES)), missing);
    assert_eq!(parse("<html></html>"), missing);
    assert_eq!(parse(""), missing);
}

fn change(day: &str, to: &str) -> String {
    format!(
        "<tr><td></td><td><small>from</small></td><td></td><td><small>{to}</small></td><td><small>{day}</small></td></tr>"
    )
}

#[test]
fn changes_of_name_come_oldest_first() {
    let names = format!(
        "{}{}{}{}",
        change("2/1/2020", "third"),
        change("1/1/2020", "first"),
        change("12/31/2019", "oldest"),
        change("1/1/2020", "second")
    );
    let team = parse(&page(HEADER, SIDE, "", &names)).unwrap();
    let order: Vec<(&str, Date)> =
        team.name_changes.iter().map(|change| (change.to.as_str(), change.date)).collect();
    assert_eq!(
        order,
        vec![
            ("oldest", date(2019, 12, 31)),
            ("first", date(2020, 1, 1)),
            ("second", date(2020, 1, 1)),
            ("third", date(2020, 2, 1)),
        ]
    );
    assert!(date(2019, 12, 31).on_or_before(&date(2020, 1, 1)));
    assert!(date(2020, 1, 1).on_or_before(&date(2020, 1, 1)));
    assert!(!date(2020, 2, 1).on_or_before(&date(2020, 1, 31)));
    assert!(date(2020, 2, 1).on_or_before(&date(2020, 10, 1)));
}

#[test]
fn team_without_name_goes_by_its_tag() {
    let header = r#"<h1><span>TAG</span></h1><a><img src="/img/logo.png"></a>"#;
    let team = parse(&page(header, SIDE, "", "")).unwrap();
    assert_eq!(team.name, "TAG");
    assert_eq!(team.tag, "TAG");
    assert_eq!(team.image, "/img/logo.png");
    assert_eq!(team.steam_group, None);
    assert!(team.members.is_empty());
    assert!(team.name_changes.is_empty());
}

#[test]
fn team_page_fails_on_the_first_part_that_is_missing() {
    let header = r#"<h1><span>TAG</span> <b>Team Name</b></h1>"#;
    assert_eq!(
        parse_error(&page(header, "", "<div class=\"white-row-light-small\"></div>", "")),
        ParseError::ElementNotFound {
            selector: ".container .col-md-12 a > img",
            role: "team image",
        }
    );
    assert_eq!(
        parse_error(&page(HEADER, "<h5><b>Platinum</b></h5>", "", "")),
        ParseError::ElementNotFound {
            selector: ".container .col-md-3 .white-row-small h5 .text-danger b",
            role: "team format",
        }
    );
    let side = r#"<h5><span class="text-danger"><b>Chess</b></span></h5><h5><b>Platinum</b></h5>"#;
    assert_eq!(
        parse_error(&page(HEADER, side, "", "")),
        ParseError::InvalidText { text: "Chess".to_string(), role: "team game mode" }
    );
    let side = r#"<h5><span class="text-danger"><b>6v6</b></span></h5>"#;
    assert_eq!(
        parse_error(&page(HEADER, side, "", "")),
        ParseError::ElementNotFound {
            selector: ".container .col-md-3 .white-row-small h5 > b",
            role: "team division",
        }
    );
}

#[test]
fn team_page_optional_parts_may_be_missing() {
    let side = r#"<h5><span class="text-danger"><b>6v6</b></span></h5><h5><b>Steel</b></h5>"#;
    let team = parse(&page(HEADER, side, "", "")).unwrap();
    assert_eq!(team.format, GameMode::Sixes);
    assert_eq!(team.timezone, None);
    assert_eq!(team.description, "");
    assert!(team.titles.is_empty());
    assert!(team.results.is_empty());
    assert_eq!(team.region, None);
}

#[test]
fn team_page_fails_on_a_malformed_row() {
    let roster = r#"<div class="white-row-light-small">
  <b><a href="players_page.cfm?player_id=abc">Player One</a></b>
  <span class="tinytext">Leader <em>Jan 5, 2015 / 7:30 PM (ET)</em></span></div>"#;
    assert_eq!(
        parse_error(&page(HEADER, SIDE, roster, NAMES)),
        ParseError::InvalidLink {
            link: "players_page.cfm?player_id=abc".to_string(),
            role: "user id",
        }
    );
    let roster = r#"<div class="white-row-light-small"><span class="tinytext">Leader</span></div>"#;
    assert_eq!(
        parse_error(&page(HEADER, SIDE, roster, NAMES)),
        ParseError::ElementNotFound {
            selector: "b > a[href^=\"players_page\"]",
            role: "team member link",
        }
    );
    let names = r#"<tr><td></td><td><small>A</small></td><td></td><td><small>B</small></td><td><small>2016-03-14</small></td></tr>"#;
    assert_eq!(
        parse_error(&page(HEADER, SIDE, ROSTER, names)),
        ParseError::InvalidDate { date: "2016-03-14".to_string(), role: "team name change date" }
    );
}

#[test]
fn names_of_a_team() {
    assert_eq!(
        team_names(Some("Name"), Some("TAG")),
        Ok(("Name".to_string(), "TAG".to_string()))
    );
    assert_eq!(team_names(None, Some("TAG")), Ok(("TAG".to_string(), "TAG".to_string())));
    assert_eq!(team_names(Some("Name"), None), Ok(("Name".to_string(), "".to_string())));
    let missing = Err(ParseError::ElementNotFound {
        selector: ".container .col-md-12 h1 > b",
        role: "team name",
    });
    assert_eq!(team_names(None, None), missing);
    assert_eq!(team_names(Some(""), Some("")), missing);
}

#[test]
fn mode_of_a_team() {
    assert_eq!(team_mode(Some("TF2 6vs6")), Ok(GameMode::Sixes));
    assert_eq!(
        team_mode(Some("TF2 6vs6 ")),
        Err(ParseError::InvalidText { text: "TF2 6vs6 ".to_string(), role: "team game mode" })
    );
}

#[test]
fn record_of_a_season() {
    assert_eq!(
        record_from_cells(Some("14"), Some("Platinum"), Some("7-1")),
        Ok(Record { season: 14, division: "Platinum".to_string(), wins: 7, losses: 1 })
    );
    assert_eq!(
        record_from_cells(None, Some("Platinum"), Some("7-1")),
        Err(ParseError::ElementNotFound {
            selector: "td:nth-child(1) small span b",
            role: "team record season",
        })
    );
    assert_eq!(
        record_from_cells(Some("14"), None, None),
        Err(ParseError::ElementNotFound {
            selector: "td:nth-child(2) small",
            role: "team record division",
        })
    );
    assert_eq!(
        record_from_cells(Some("14"), Some("Platinum"), None),
        Err(ParseError::ElementNotFound { selector: "td:nth-child(3)", role: "team record result" })
    );
    assert_eq!(
        record_from_cells(Some("x"), Some("Platinum"), Some("7:1")),
        Err(ParseError::InvalidText { text: "7:1".to_string(), role: "team record result" })
    );
    assert_eq!(
        record_from_cells(Some("x"), Some("Platinum"), Some("7-1")),
        Err(ParseError::InvalidText { text: "x".to_string(), role: "team record season" })
    );
    assert_eq!(
        record_from_cells(Some("14"), Some("Platinum"), Some("5 - 3")),
        Err(ParseError::InvalidText { text: "5 ".to_string(), role: "team record wins" })
    );
    assert_eq!(
        record_from_cells(Some("14"), Some("Platinum"), Some("5-256")),
        Err(ParseError::InvalidText { text: "256".to_string(), role: "team record losses" })
    );
    assert_eq!(
        record_from_cells(Some("4294967295"), Some(""), Some("255-0-1")),
        Err(ParseError::InvalidText { text: "0-1".to_string(), role: "team record losses" })
    );
    assert_eq!(
        record_from_cells(Some("4294967295"), Some(""), Some("255-+0")),
        Ok(Record { season: 4294967295, division: "".to_string(), wins: 255, losses: 0 })
    );
}

#[test]
fn joining_is_one_moment_or_the_start_of_a_span() {
    let moments = DateFormat::compile(MEMBER_DATE_FORMAT).unwrap();
    let days = DateFormat::compile(MEMBER_DATE_ALT_FORMAT).unwrap();
    assert_eq!(
        member_since("Jan 5, 2015 / 11:05 AM (ET)", &moments, &days),
        Ok(Timestamp::new(date(2015, 1, 5), 11, 5, 0, -5).unwrap())
    );
    assert_eq!(
        member_since("Jan 5, 2015 / 11:05 PM (ET)", &moments, &days),
        Ok(Timestamp::new(date(2015, 1, 5), 23, 5, 0, -5).unwrap())
    );
    assert_eq!(
        member_since("(Mar 2, 2014 - Apr 3, 2014)", &moments, &days),
        Ok(Timestamp::midnight_utc(date(2014, 3, 2)))
    );
    assert_eq!(
        member_since("((Mar 2, 2014 -", &moments, &days),
        Ok(Timestamp::midnight_utc(date(2014, 3, 2)))
    );
    assert_eq!(
        member_since("(Mar 2, 2014)", &moments, &days),
        Err(ParseError::InvalidDate {
            date: "(Mar 2, 2014)".to_string(),
            role: "member join date (alternate format)",
        })
    );
    assert_eq!(
        member_since("Mar 2, 2014", &moments, &days),
        Err(ParseError::InvalidDate { date: "Mar 2, 2014".to_string(), role: "member join date" })
    );
}

#[test]
fn joining_from_what_was_read() {
    let day = date(2014, 3, 2);
    let moment = Timestamp::new(date(2015, 1, 5), 7, 30, 0, -5).unwrap();
    assert_eq!(since_from("(x", Some(day), Some(moment)), Ok(Timestamp::midnight_utc(day)));
    assert_eq!(since_from("x", Some(day), Some(moment)), Ok(moment));
    assert_eq!(
        since_from("(x", None, Some(moment)),
        Err(ParseError::InvalidDate {
            date: "(x".to_string(),
            role: "member join date (alternate format)",
        })
    );
    assert_eq!(
        since_from("", Some(day), None),
        Err(ParseError::InvalidDate { date: "".to_string(), role: "member join date" })
    );
    let midnight = Timestamp::midnight_utc(day);
    assert_eq!(
        (midnight.date(), midnight.hour(), midnight.minute(), midnight.second()),
        (day, 0, 0, 0)
    );
    assert_eq!(midnight.offset_hours(), 0);
    assert_eq!(Timestamp::new(day, 24, 0, 0, 0), None);
    assert_eq!(Timestamp::new(day, 0, 60, 0, 0), None);
    assert_eq!(Timestamp::new(day, 0, 0, 60, 0), None);
    assert_eq!(Timestamp::new(day, 0, 0, 0, 26), None);
}

#[test]
fn member_of_a_roster() {
    let moments = DateFormat::compile(MEMBER_DATE_FORMAT).unwrap();
    let days = DateFormat::compile(MEMBER_DATE_ALT_FORMAT).unwrap();
    assert_eq!(
        member_from_cells(
            Some((Some("Name"), "players_page.cfm?player_id=76561198024494988")),
            Some("Leader\n since"),
            Some(" (Mar 2, 2014 - ) "),
            &moments,
            &days
        ),
        Ok(Membership {
            name: "Name".to_string(),
            steam_id: SteamID { id: 76561198024494988 },
            role: "Leader".to_string(),
            since: Timestamp::midnight_utc(date(2014, 3, 2)),
        })
    );
    assert_eq!(
        member_from_cells(Some((None, "x=1")), Some("Leader"), Some("x"), &moments, &days),
        Err(ParseError::EmptyText {
            selector: "b > a[href^=\"players_page\"]",
            role: "team member link",
        })
    );
    assert_eq!(
        member_from_cells(Some((Some("Name"), "x=1")), None, Some("x"), &moments, &days),
        Err(ParseError::ElementNotFound { selector: ".tinytext", role: "team member role" })
    );
    assert_eq!(
        member_from_cells(Some((Some("Name"), "x=1")), Some("Leader"), None, &moments, &days),
        Err(ParseError::ElementNotFound { selector: ".tinytext > em", role: "team member since" })
    );
    assert_eq!(
        member_from_cells(Some((Some("Name"), "x")), Some("Leader"), Some("x"), &moments, &days),
        Err(ParseError::InvalidDate { date: "x".to_string(), role: "member join date" })
    );
}

#[test]
fn change_of_name() {
    let days = DateFormat::compile(DATE_FORMAT).unwrap();
    assert_eq!(
        name_change_from_cells(None, Some("A"), Some("T"), Some("B"), Some("1/2/2003"), &days),
        Ok(NameChange {
            from_tag: "".to_string(),
            from: "A".to_string(),
            to_tag: "T".to_string(),
            to: "B".to_string(),
            date: date(2003, 1, 2),
        })
    );
    assert_eq!(
        name_change_from_cells(None, None, None, None, None, &days),
        Err(ParseError::ElementNotFound {
            selector: "td:nth-child(2) small",
            role: "team name change from name",
        })
    );
    assert_eq!(
        name_change_from_cells(None, Some("A"), None, None, None, &days),
        Err(ParseError::ElementNotFound {
            selector: "td:nth-child(4) small",
            role: "team name change to name",
        })
    );
    assert_eq!(
        name_change_from_cells(None, Some("A"), None, Some("B"), None, &days),
        Err(ParseError::ElementNotFound {
            selector: "td:nth-child(5) small",
            role: "team name change date",
        })
    );
}
