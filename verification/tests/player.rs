use ugc_scraper::data::{Honors, MembershipHistory, Player, TeamMemberShip, TeamRef};
use ugc_scraper::date::{Date, DateFormat};
use ugc_scraper::error::{ParseError, ScrapeError};
use ugc_scraper::parser::player::{
    class_from_icon, classes_from_icons, honor_from_parts, honors_from_group,
    membership_from_cells, player_id_from_link,
};
use ugc_scraper::parser::player_details::history_from_cells;
use ugc_scraper::parser::{Parser, PlayerDetailsParser, PlayerParser, DATE_FORMAT};
use ugc_scraper::steam::SteamID;
use ugc_scraper::vocabulary::{Class, GameMode};

fn date(year: i32, month: u8, day: u8) -> Date {
    Date::from_calendar_date(year, month, day).unwrap()
}

fn team(name: &str, id: u32) -> TeamRef {
    TeamRef { name: name.to_string(), id }
}

fn page(profile: &str, teams: &str, honors: &str) -> String {
    format!(
        r#"<html><body><div class="container">
<div class="col-md-4">{profile}</div>
<div class="row">
 <div class="col-md-6"><div class="white-row-small">{teams}</div></div>
 <div class="col-md-6"><div class="white-row-small">{honors}</div></div>
</div></div></body></html>"#
    )
}

const PROFILE: &str = r#"<h3><b> Player One </b></h3>
<a href="https://www.ugcleague.com/players_page.cfm?player_id=76561198024494988"><img class="img-responsive" data-cfsrc="/avatar_cf.jpg" src="/avatar.jpg"></a>
<a href="steam://friends/add/76561198024494988">add</a>
<img data-cfsrc="/images/flags/de.png" title="Germany">
<img class="img-rounded" src="images/tf2/icon/medic.jpg">
<img class="img-rounded" data-cfsrc="images/tf2/icon/scout.jpg">
<img class="img-rounded" src="images/tf2/icon/saxton.jpg">
<img class="img-rounded" src="/images/tf2/icon/spy.jpg">"#;

const TEAMS: &str = r#"<div class="row-fluid">
  <p><a href="team_page.cfm?clan_id=7861">visit</a></p>
  <span class="text-primary"><b>Team Name</b></span>
  <small>TF2 Highlander Platinum<br>
     Joined Team:	3/14/2016</small>
</div>
<div class="row-fluid"><small>no team here</small></div>"#;

const HONORS: &str = r#"<div class="row-fluid"><h5>9v9 Medals</h5><ul>
  <li><div>Season 12 Platinum Division</div><small><a href="team_page.cfm?clan_id=7861">Team Name</a></small></li>
  <li><div>Season 11 Gold</div><small><a href="team_page.cfm?clan_id=7000"> </a></small></li>
</ul></div>
<div class="row-fluid"><h5>TF2 6vs6 Medals</h5><ul>
  <li><div>S 3</div><small><a href="4105">Sixes</a></small></li>
</ul></div>"#;

fn parse(document: &str) -> Result<Player, ScrapeError> {
    PlayerParser::new().expect("selectors").parse(document)
}

#[test]
fn player_page_gives_the_whole_player() {
    assert_eq!(
        parse(&page(PROFILE, TEAMS, HONORS)),
        Ok(Player {
            name: "Player One".to_string(),
            avatar: "/avatar.jpg".to_string(),
            steam_id: SteamID { id: 76561198024494988 },
            honors: vec![
                Honors {
                    format: GameMode::Highlander,
                    division: "Platinum Division".to_string(),
                    season: 12,
                    team: team("Team Name", 7861),
                },
                Honors {
                    format: GameMode::Highlander,
                    division: "Gold".to_string(),
                    season: 11,
                    team: team("", 7000),
                },
                Honors {
                    format: GameMode::Sixes,
                    division: "3".to_string(),
                    season: 3,
                    team: team("Sixes", 4105),
                },
            ],
            teams: vec![TeamMemberShip {
                team: team("Team Name", 7861),
                league: "TF2 Highlander Platinum".to_string(),
                since: date(2016, 3, 14),
            }],
            favorite_classes: vec![Class::Medic, Class::Scout],
            country: Some("Germany".to_string()),
        })
    );
}

#[test]
fn player_page_twice_gives_the_same() {
    let document = page(PROFILE, TEAMS, HONORS);
    let parser = PlayerParser::new().expect("selectors");
    assert_eq!(parser.parse(&document), parser.parse(&document));
    assert_eq!(
        format!("{:?}", parser.parse(&document)),
        format!("{:?}", PlayerParser::new().unwrap().parse(&document))
    );
}

fn honors_group(headers: usize, lines: usize, links: usize) -> String {
    let mut group = String::from(r#"<div class="row-fluid">"#);
    for _ in 0..headers {
        group.push_str("<h5>9v9 Medals</h5>");
    }
    group.push_str("<ul>");
    for i in 0..lines {
        group.push_str(&format!("<li><div>Season {} Steel</div></li>", i + 1));
    }
    for i in 0..links {
        group.push_str(&format!(
            r#"<li><small><a href="team_page.cfm?clan_id={}">Team</a></small></li>"#,
            i + 1
        ));
    }
    group.push_str("</ul></div>");
    group
}

#[test]
fn honors_pair_up_as_far_as_the_shortest_list_goes() {
    let player = parse(&page(PROFILE, "", &honors_group(2, 2, 1))).unwrap();
    assert_eq!(
        player.honors,
        vec![Honors {
            format: GameMode::Highlander,
            division: "Steel".to_string(),
            season: 1,
            team: team("Team", 1),
        }]
    );
    let player = parse(&page(PROFILE, "", &honors_group(2, 1, 2))).unwrap();
    assert_eq!(player.honors.len(), 1);
    assert_eq!(parse(&page(PROFILE, "", &honors_group(1, 0, 3))).unwrap().honors, vec![]);
    assert_eq!(parse(&page(PROFILE, "", &honors_group(0, 0, 3))).unwrap().honors, vec![]);
    assert_eq!(parse(&page(PROFILE, "", &honors_group(1, 3, 3))).unwrap().honors.len(), 3);
}

#[test]
fn honors_of_a_group_from_its_parts() {
    let lines = vec![Some("Season 12 Platinum Division"), Some("Season 11 Gold")];
    let links = vec![(Some("Team"), "team_page.cfm?clan_id=1")];
    assert_eq!(honors_from_group(Some("9v9 Medals"), &lines, &links).unwrap().len(), 1);
    let three = vec![(Some("A"), "a=1"), (None, "2"), (Some("C"), "c=3")];
    assert_eq!(
        honors_from_group(Some("4v4 Medals Medals"), &lines, &three),
        Ok(vec![
            Honors {
                format: GameMode::Fours,
                division: "Platinum Division".to_string(),
                season: 12,
                team: team("A", 1),
            },
            Honors {
                format: GameMode::Fours,
                division: "Gold".to_string(),
                season: 11,
                team: team("", 2),
            },
        ])
    );
    assert_eq!(honors_from_group(None, &Vec::new(), &three), Ok(vec![]));
    assert_eq!(
        honors_from_group(None, &lines, &three),
        Err(ParseError::ElementNotFound { selector: "h5", role: "player honors format" })
    );
}

#[test]
fn honor_fails_on_its_first_malformed_part() {
    let link = (Some("Team"), "team_page.cfm?clan_id=1");
    assert_eq!(
        honor_from_parts(Some("Chess Medals"), None, link),
        Err(ParseError::InvalidText { text: "Chess".to_string(), role: "player honors format" })
    );
    assert_eq!(
        honor_from_parts(Some("9v9"), None, link),
        Err(ParseError::EmptyText { selector: "li div", role: "player honors division" })
    );
    assert_eq!(
        honor_from_parts(Some("9v9"), Some("Season twelve Platinum"), link),
        Err(ParseError::InvalidText {
            text: "Season twelve Platinum".to_string(),
            role: "player honors season",
        })
    );
    assert_eq!(
        honor_from_parts(Some("9v9"), Some("Season"), link),
        Err(ParseError::InvalidText { text: "Season".to_string(), role: "player honors season" })
    );
    assert_eq!(
        honor_from_parts(Some("9v9"), Some("Season 12"), (None, "team_page.cfm?clan_id=")),
        Err(ParseError::InvalidLink {
            link: "team_page.cfm?clan_id=".to_string(),
            role: "player honors team",
        })
    );
}

#[test]
fn classes_come_from_the_names_of_pictures() {
    assert_eq!(class_from_icon("images/tf2/icon/demoman.jpg"), Some(Class::Demoman));
    assert_eq!(class_from_icon("images/tf2/icon/demoman.png"), None);
    assert_eq!(class_from_icon("images/tf2/icon/Demoman.jpg"), None);
    assert_eq!(class_from_icon("/images/tf2/icon/demoman.jpg"), None);
    assert_eq!(class_from_icon(""), None);
    assert_eq!(
        classes_from_icons(&vec![
            Some("images/tf2/icon/engineer.jpg"),
            None,
            Some("x"),
            Some("images/tf2/icon/heavy.jpg"),
            Some("images/tf2/icon/engineer.jpg"),
        ]),
        vec![Class::Engineer, Class::Heavy]
    );
    assert_eq!(
        classes_from_icons(&vec![
            Some("images/tf2/icon/spy.jpg"),
            Some("images/tf2/icon/spy.jpg"),
            Some("images/tf2/icon/scout.jpg"),
            Some("images/tf2/icon/spy.jpg"),
        ]),
        vec![Class::Spy, Class::Scout]
    );
    assert_eq!(classes_from_icons(&Vec::new()), vec![]);
}

#[test]
fn team_of_a_player_from_its_parts() {
    let days = DateFormat::compile(DATE_FORMAT).unwrap();
    assert_eq!(
        membership_from_cells("x=5", None, Some("League"), Some("Joined 1/2/2003"), &days),
        Ok(TeamMemberShip { team: team("", 5), league: "League".to_string(), since: date(2003, 1, 2) })
    );
    assert_eq!(
        membership_from_cells("x=5", None, None, None, &days),
        Err(ParseError::ElementNotFound { selector: "small", role: "players team league" })
    );
    assert_eq!(
        membership_from_cells("x=5", None, Some(""), None, &days),
        Err(ParseError::ElementNotFound { selector: "small", role: "players team joined" })
    );
    assert_eq!(
        membership_from_cells("x", None, Some(""), Some(""), &days),
        Err(ParseError::InvalidLink { link: "x".to_string(), role: "team id" })
    );
    assert_eq!(
        membership_from_cells("x=5", None, Some(""), Some("1/2/2003"), &days),
        Err(ParseError::InvalidDate { date: "1/2/2003".to_string(), role: "team join date" })
    );
    assert_eq!(
        membership_from_cells("x=5", None, Some(""), Some("Joined 1.2.2003"), &days),
        Err(ParseError::InvalidDate { date: "1.2.2003".to_string(), role: "team join date" })
    );
}

#[test]
fn player_page_fails_on_the_first_part_that_is_missing() {
    let error = |document: &str| match parse(document) {
        Err(ScrapeError::Parse(e)) => e,
        other => panic!("{:?}", other),
    };
    assert_eq!(
        error("<html></html>"),
        ParseError::ElementNotFound { selector: ".container .col-md-4 > h3 > b", role: "player name" }
    );
    assert_eq!(
        error(&page("<h3><b>Name</b></h3>", "", "")),
        ParseError::ElementNotFound {
            selector: "a[href*=\"steam://friends/add\"]",
            role: "player steam id",
        }
    );
    let profile = r#"<h3><b>Name</b></h3><a href="steam://friends/add/none">add</a>"#;
    assert_eq!(
        error(&page(profile, "", "")),
        ParseError::InvalidLink {
            link: "steam://friends/add/none".to_string(),
            role: "player steam id",
        }
    );
    let profile = r#"<h3><b>Name</b></h3><a href="steam://friends/add/[U:1:22202]">add</a>"#;
    assert_eq!(
        error(&page(profile, "", "")),
        ParseError::ElementNotFound {
            selector: "a[href*=\"https://www.ugcleague.com/players_page.cfm?player_id=\"] img.img-responsive",
            role: "player avatar",
        }
    );
}

#[test]
fn player_without_readable_identifier_fails() {
    let profile = r#"<h3><b></b></h3><a href="steam://friends/add/none">add</a>
<a href="https://www.ugcleague.com/players_page.cfm?player_id=1"><img class="img-responsive" data-cfsrc="/cf.jpg"></a>"#;
    assert_eq!(
        parse(&page(profile, "", "")),
        Err(ScrapeError::Parse(ParseError::InvalidLink {
            link: "steam://friends/add/none".to_string(),
            role: "player steam id",
        }))
    );
    assert_eq!(
        player_id_from_link("steam://friends/add/"),
        Err(ParseError::InvalidLink {
            link: "steam://friends/add/".to_string(),
            role: "player steam id",
        })
    );
    assert_eq!(
        player_id_from_link("76561198024494988"),
        Err(ParseError::InvalidLink {
            link: "76561198024494988".to_string(),
            role: "player steam id",
        })
    );
    assert_eq!(
        player_id_from_link("steam://friends/add/76561198024494988"),
        Ok(SteamID { id: 76561198024494988 })
    );
    let profile = profile.replace("add/none", "add/76561197960287930");
    let player = parse(&page(&profile, "", "")).unwrap();
    assert_eq!(player.steam_id.steam64(), 76561197960287930);
    assert_eq!(player.name, "");
    assert_eq!(player.avatar, "/cf.jpg");
    assert_eq!(player.country, None);
    let profile = profile.replace("add/76561197960287930", "add/[U:1:64229260]");
    assert_eq!(parse(&page(&profile, "", "")).unwrap().steam_id, SteamID::from(76561198024494988));
}

fn details(tables: &str) -> String {
    format!(r#"<div class="container"><div class="white-row-small">{tables}</div></div>"#)
}

fn table(heading: &str, rows: &str) -> String {
    format!(
        "<table><thead><tr><th><h4>{heading}</h4></th></tr></thead><tbody><tr><th>heads</th></tr>{rows}</tbody></table>"
    )
}

fn history_row(link: &str, joined: &str, left: &str) -> String {
    format!(
        "<tr><td>1</td><td>2</td><td>{link}<small>Platinum</small></td><td>4</td><td><span>{joined}</span></td><td><span>{left}</span></td></tr>"
    )
}

#[test]
fn details_page_gives_the_teams_of_all_tables() {
    let link = r#"<a href="team_page.cfm?clan_id=7861">Team Name</a>"#;
    let other = r#"<a href="team_page.cfm?clan_id=12">Other</a>"#;
    let first = table(
        "TF2 Highlander",
        &format!("{}{}", history_row(link, "3/14/2016", "4/1/2017"), history_row(other, "5/1/2017", "")),
    );
    let second = table("TF2 6vs6", &history_row(other, "1/1/2010", "active"));
    let parser = PlayerDetailsParser::new().expect("selectors");
    assert_eq!(
        parser.parse(&details(&format!("{first}{second}"))),
        Ok(vec![
            MembershipHistory {
                format: "TF2 Highlander".to_string(),
                team: team("Team Name", 7861),
                division: "Platinum".to_string(),
                joined: date(2016, 3, 14),
                left: Some(date(2017, 4, 1)),
            },
            MembershipHistory {
                format: "TF2 Highlander".to_string(),
                team: team("Other", 12),
                division: "Platinum".to_string(),
                joined: date(2017, 5, 1),
                left: None,
            },
            MembershipHistory {
                format: "TF2 6vs6".to_string(),
                team: team("Other", 12),
                division: "Platinum".to_string(),
                joined: date(2010, 1, 1),
                left: None,
            },
        ])
    );
    assert_eq!(parser.parse("<html></html>"), Ok(vec![]));
}

#[test]
fn details_page_fails_on_its_first_malformed_row() {
    let parser = PlayerDetailsParser::new().expect("selectors");
    let link = r#"<a href="team_page.cfm?clan_id=7861">Team Name</a>"#;
    let rows = format!("{}{}", history_row(link, "3/14/2016", ""), history_row(link, "14/3/2016", ""));
    assert_eq!(
        parser.parse(&details(&table("9v9", &rows))),
        Err(ScrapeError::Parse(ParseError::InvalidDate {
            date: "14/3/2016".to_string(),
            role: "team join date",
        }))
    );
    assert_eq!(
        parser.parse(&details(&table("9v9", &history_row("", "3/14/2016", "")))),
        Err(ScrapeError::Parse(ParseError::ElementNotFound {
            selector: "td:nth-child(3) a",
            role: "team link",
        }))
    );
    assert_eq!(
        parser.parse(&details(&table(" ", &history_row(link, "3/14/2016", "")))),
        Err(ScrapeError::Parse(ParseError::EmptyText {
            selector: ".container .white-row-small thead h4",
            role: "team format",
        }))
    );
}

#[test]
fn team_of_a_history_from_its_parts() {
    let days = DateFormat::compile(DATE_FORMAT).unwrap();
    assert_eq!(
        history_from_cells(Some("9v9"), Some("x=1"), Some("T"), None, None, None, &days),
        Err(ParseError::ElementNotFound { selector: "td:nth-child(3) small", role: "team division" })
    );
    assert_eq!(
        history_from_cells(Some("9v9"), Some("x=1"), Some("T"), Some("D"), None, None, &days),
        Err(ParseError::ElementNotFound { selector: "td:nth-child(5) span", role: "team join date" })
    );
    assert_eq!(
        history_from_cells(Some("9v9"), Some("x=1"), None, Some("D"), None, None, &days),
        Err(ParseError::ElementNotFound { selector: "td:nth-child(3) a", role: "team link" })
    );
    assert_eq!(
        history_from_cells(Some("9v9"), Some("x1"), Some("T"), Some("D"), Some("1/2/2003"), None, &days),
        Err(ParseError::InvalidLink { link: "x1".to_string(), role: "team id" })
    );
    let row = |joined, left| {
        history_from_cells(Some("9v9"), Some("x=1"), Some("T"), Some("D"), Some(joined), left, &days)
    };
    assert_eq!(
        row("1/2/2020", Some("1/1/2020")),
        Err(ParseError::InvalidDate { date: "1/1/2020".to_string(), role: "team leave date" })
    );
    assert_eq!(row("1/2/2020", Some("1/2/2020")).unwrap().left, Some(date(2020, 1, 2)));
    assert_eq!(row("1/2/2020", Some("12/31/2020")).unwrap().left, Some(date(2020, 12, 31)));
    assert_eq!(row("1/2/2020", Some("active")).unwrap().left, None);
    assert_eq!(row("1/2/2020", None).unwrap().left, None);
}
