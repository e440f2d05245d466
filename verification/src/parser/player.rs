//! The profile page of a player.

use crate::collect::{collected, gathered, lemma_collected_all, push_row, push_rows};
use crate::data::{
    Honors, HonorsView, Player, PlayerView, TeamMemberShip, TeamMemberShipView, TeamRef,
    TeamRefView,
};
use crate::date::{date_in_layout, DateFormat};
use crate::dom::{
    attr, attr_or_default, attr_or_empty, element_attr, first_in, first_text_of, first_texts,
    first_under, having, lemma_having, links, links_of_all, matches_in, matches_under, selected_last_text,
    selected_text, text_of, texts_of_all, Document, Query,
};
use crate::error::{
    empty_text, invalid_date, invalid_link, invalid_text, not_found, result_view, ParseError,
    ParseErrorView, ScrapeError, ScrapeErrorView,
};
use crate::links::{id_from_link, link_id};
use crate::number::{parse_u32, parse_u8, parsed_u32, parsed_u8};
use crate::parser::{Parser, DATE_FORMAT};
use crate::steam::{text_id, SteamID};
use crate::text::{
    head_before, or_empty, rsplit_once, skip_suffixes, split_first, split_last, split_once,
    strip_prefix, strip_suffix, trim, trim_end_matches, trimmed, unwrap_or_empty, without_prefix,
    without_suffix, CharSet,
};
use crate::vocabulary::{Class, GameMode};
use vstd::prelude::*;
use vstd::string::*;

verus! {

pub const SELECTOR_PLAYER_NAME: &'static str = ".container .col-md-4 > h3 > b";

pub const SELECTOR_PLAYER_ID: &'static str = "a[href*=\"steam://friends/add\"]";

pub const SELECTOR_PLAYER_FLAG: &'static str = "img[data-cfsrc*=\"/images/flags/\"]";

pub const SELECTOR_PLAYER_HONORS_HEADER: &'static str = "h5";

pub const SELECTOR_PLAYER_HONORS_GROUP: &'static str =
    ".container .col-md-6:nth-child(2) .white-row-small .row-fluid";

pub const SELECTOR_PLAYER_HONORS_LEAGUE: &'static str = "li div";

pub const SELECTOR_PLAYER_HONORS_TEAM: &'static str = "li small a";

pub const SELECTOR_PLAYER_TEAM_GROUP: &'static str =
    ".container .col-md-6:nth-child(1) .white-row-small .row-fluid";

pub const SELECTOR_PLAYER_TEAM_LINK: &'static str = "p a";

pub const SELECTOR_PLAYER_TEAM_NAME: &'static str = "span.text-primary b";

pub const SELECTOR_PLAYER_TEAM_LEAGUE: &'static str = "small";

pub const SELECTOR_PLAYER_TEAM_SINCE: &'static str = "small";

pub const SELECTOR_AVATAR: &'static str =
    "a[href*=\"https://www.ugcleague.com/players_page.cfm?player_id=\"] img.img-responsive";

pub const SELECTOR_CLASS: &'static str =
    "img.img-rounded[src*=\"images/tf2/icon/\"], img.img-rounded[data-cfsrc*=\"images/tf2/icon/\"]";

/// Reads the profile page of a player.
pub struct PlayerParser {
    selector_name: Query,
    selector_id: Query,
    selector_flag: Query,
    selector_honors_header: Query,
    selector_honors_group: Query,
    selector_honors_league: Query,
    selector_honors_team: Query,
    selector_team_group: Query,
    selector_team_link: Query,
    selector_team_name: Query,
    selector_team_league: Query,
    selector_team_since: Query,
    selector_avatar: Query,
    selector_class: Query,
    date_format: DateFormat,
}

impl PlayerParser {
    #[verifier::type_invariant]
    spec fn compiled(self) -> bool {
        &&& self.selector_name@ == SELECTOR_PLAYER_NAME@
        &&& self.selector_id@ == SELECTOR_PLAYER_ID@
        &&& self.selector_flag@ == SELECTOR_PLAYER_FLAG@
        &&& self.selector_honors_header@ == SELECTOR_PLAYER_HONORS_HEADER@
        &&& self.selector_honors_group@ == SELECTOR_PLAYER_HONORS_GROUP@
        &&& self.selector_honors_league@ == SELECTOR_PLAYER_HONORS_LEAGUE@
        &&& self.selector_honors_team@ == SELECTOR_PLAYER_HONORS_TEAM@
        &&& self.selector_team_group@ == SELECTOR_PLAYER_TEAM_GROUP@
        &&& self.selector_team_link@ == SELECTOR_PLAYER_TEAM_LINK@
        &&& self.selector_team_name@ == SELECTOR_PLAYER_TEAM_NAME@
        &&& self.selector_team_league@ == SELECTOR_PLAYER_TEAM_LEAGUE@
        &&& self.selector_team_since@ == SELECTOR_PLAYER_TEAM_SINCE@
        &&& self.selector_avatar@ == SELECTOR_AVATAR@
        &&& self.selector_class@ == SELECTOR_CLASS@
        &&& self.date_format@ == DATE_FORMAT@
    }

    /// Whether the selectors and the layouts of dates of this parser are what they are meant to be.
    pub open spec fn selectors_compile() -> bool {
        &&& Query::is_selector(SELECTOR_PLAYER_NAME@)
        &&& Query::is_selector(SELECTOR_PLAYER_ID@)
        &&& Query::is_selector(SELECTOR_PLAYER_FLAG@)
        &&& Query::is_selector(SELECTOR_PLAYER_HONORS_HEADER@)
        &&& Query::is_selector(SELECTOR_PLAYER_HONORS_GROUP@)
        &&& Query::is_selector(SELECTOR_PLAYER_HONORS_LEAGUE@)
        &&& Query::is_selector(SELECTOR_PLAYER_HONORS_TEAM@)
        &&& Query::is_selector(SELECTOR_PLAYER_TEAM_GROUP@)
        &&& Query::is_selector(SELECTOR_PLAYER_TEAM_LINK@)
        &&& Query::is_selector(SELECTOR_PLAYER_TEAM_NAME@)
        &&& Query::is_selector(SELECTOR_PLAYER_TEAM_LEAGUE@)
        &&& Query::is_selector(SELECTOR_PLAYER_TEAM_SINCE@)
        &&& Query::is_selector(SELECTOR_AVATAR@)
        &&& Query::is_selector(SELECTOR_CLASS@)
        &&& DateFormat::is_layout(DATE_FORMAT@)
    }

    /// Compiles the selectors and the layouts of dates; nothing where one of them does not compile.
    pub fn new() -> (r: Option<PlayerParser>)
        ensures
            r is Some <==> PlayerParser::selectors_compile(),
    {
        let selector_name = match Query::compile(SELECTOR_PLAYER_NAME) {
            Some(query) => query,
            None => {
                return None;
            },
        };
        let selector_id = match Query::compile(SELECTOR_PLAYER_ID) {
            Some(query) => query,
            None => {
                return None;
            },
        };
        let selector_flag = match Query::compile(SELECTOR_PLAYER_FLAG) {
            Some(query) => query,
            None => {
                return None;
            },
        };
        let selector_honors_header = match Query::compile(SELECTOR_PLAYER_HONORS_HEADER) {
            Some(query) => query,
            None => {
                return None;
            },
        };
        let selector_honors_group = match Query::compile(SELECTOR_PLAYER_HONORS_GROUP) {
            Some(query) => query,
            None => {
                return None;
            },
        };
        let selector_honors_league = match Query::compile(SELECTOR_PLAYER_HONORS_LEAGUE) {
            Some(query) => query,
            None => {
                return None;
            },
        };
        let selector_honors_team = match Query::compile(SELECTOR_PLAYER_HONORS_TEAM) {
            Some(query) => query,
            None => {
                return None;
            },
        };
        let selector_team_group = match Query::compile(SELECTOR_PLAYER_TEAM_GROUP) {
            Some(query) => query,
            None => {
                return None;
            },
        };
        let selector_team_link = match Query::compile(SELECTOR_PLAYER_TEAM_LINK) {
            Some(query) => query,
            None => {
                return None;
            },
        };
        let selector_team_name = match Query::compile(SELECTOR_PLAYER_TEAM_NAME) {
            Some(query) => query,
            None => {
                return None;
            },
        };
        let selector_team_league = match Query::compile(SELECTOR_PLAYER_TEAM_LEAGUE) {
            Some(query) => query,
            None => {
                return None;
            },
        };
        let selector_team_since = match Query::compile(SELECTOR_PLAYER_TEAM_SINCE) {
            Some(query) => query,
            None => {
                return None;
            },
        };
        let selector_avatar = match Query::compile(SELECTOR_AVATAR) {
            Some(query) => query,
            None => {
                return None;
            },
        };
        let selector_class = match Query::compile(SELECTOR_CLASS) {
            Some(query) => query,
            None => {
                return None;
            },
        };
        let date_format = match DateFormat::compile(DATE_FORMAT) {
            Some(format) => format,
            None => {
                return None;
            },
        };
        Some(
            PlayerParser {
                selector_name,
                selector_id,
                selector_flag,
                selector_honors_header,
                selector_honors_group,
                selector_honors_league,
                selector_honors_team,
                selector_team_group,
                selector_team_link,
                selector_team_name,
                selector_team_league,
                selector_team_since,
                selector_avatar,
                selector_class,
                date_format,
            },
        )
    }
}

/// The second of the words of `s`, which single spaces part: the empty text where `s` has
/// one word.
pub open spec fn second_word(s: Seq<char>) -> Seq<char> {
    match split_first(s, CharSet::One(' ')) {
        Some((_, rest)) => head_before(rest, CharSet::One(' ')),
        None => Seq::empty(),
    }
}

/// What follows the second space of `s`; what follows its only space where it has one;
/// all of it where it has none.
pub open spec fn after_two_words(s: Seq<char>) -> Seq<char> {
    match split_first(s, CharSet::One(' ')) {
        Some((_, rest)) => match split_first(rest, CharSet::One(' ')) {
            Some((_, tail)) => tail,
            None => rest,
        },
        None => s,
    }
}

/// What follows the last `=` of `s`; all of it where it has none.
pub open spec fn after_last_equals(s: Seq<char>) -> Seq<char> {
    match split_last(s, CharSet::One('=')) {
        Some((_, tail)) => tail,
        None => s,
    }
}

/// One award, from the heading of its group, the text of its line, and the text and the
/// address of the link to the team.
///
/// The heading names the game mode, with ` Medals` behind it. The line reads like
/// `Season 12 Platinum Division`: its second word is the number of the season, and what
/// follows its second space is the division.
pub open spec fn honor_of(
    header: Option<Seq<char>>,
    line: Option<Seq<char>>,
    team: (Option<Seq<char>>, Seq<char>),
) -> Result<HonorsView, ParseErrorView> {
    if header is None {
        Err(not_found(SELECTOR_PLAYER_HONORS_HEADER@, "player honors format"@))
    } else if GameMode::spelled_by(skip_suffixes(header->0, " Medals"@)) is None {
        Err(invalid_text(skip_suffixes(header->0, " Medals"@), "player honors format"@))
    } else if line is None {
        Err(empty_text(SELECTOR_PLAYER_HONORS_LEAGUE@, "player honors division"@))
    } else if parsed_u8(second_word(line->0)) is None {
        Err(invalid_text(line->0, "player honors season"@))
    } else if parsed_u32(after_last_equals(team.1)) is None {
        Err(invalid_link(team.1, "player honors team"@))
    } else {
        Ok(
            HonorsView {
                format: GameMode::spelled_by(skip_suffixes(header->0, " Medals"@))->0,
                division: after_two_words(line->0),
                season: parsed_u8(second_word(line->0))->0,
                team: TeamRefView {
                    name: or_empty(team.0),
                    id: parsed_u32(after_last_equals(team.1))->0,
                },
            },
        )
    }
}

/// One award, from the heading of its group, the text of its line, and the text and the
/// address of the link to the team.
pub fn honor_from_parts(header: Option<&str>, line: Option<&str>, team: (Option<&str>, &str)) -> (r:
    Result<Honors, ParseError>)
    ensures
        result_view(r) == honor_of(header.deep_view(), line.deep_view(), team.deep_view()),
{
    let header = match header {
        Some(header) => header,
        None => {
            return Err(
                ParseError::element_not_found(
                    SELECTOR_PLAYER_HONORS_HEADER,
                    "player honors format",
                ),
            );
        },
    };
    let header = trim_end_matches(header, " Medals");
    let format = match GameMode::from_str(header) {
        Ok(format) => format,
        Err(_) => {
            return Err(ParseError::bad_text(header, "player honors format"));
        },
    };
    let line = match line {
        Some(line) => line,
        None => {
            return Err(ParseError::no_text(SELECTOR_PLAYER_HONORS_LEAGUE, "player honors division"));
        },
    };
    let (second, division) = match split_once(line, CharSet::One(' ')) {
        Some((_, rest)) => match split_once(rest, CharSet::One(' ')) {
            Some((second, tail)) => (second, tail),
            None => (rest, rest),
        },
        None => (crate::text::empty(), line),
    };
    let season = match parse_u8(second) {
        Some(season) => season,
        None => {
            return Err(ParseError::bad_text(line, "player honors season"));
        },
    };
    let (name, address) = team;
    let tail = match rsplit_once(address, CharSet::One('=')) {
        Some((_, tail)) => tail,
        None => address,
    };
    let id = match parse_u32(tail) {
        Some(id) => id,
        None => {
            return Err(ParseError::bad_link(address, "player honors team"));
        },
    };
    Ok(
        Honors {
            format,
            division: division.to_owned(),
            season,
            team: TeamRef { name: unwrap_or_empty(name).to_owned(), id },
        },
    )
}

/// The smaller of two numbers.
pub open spec fn smaller(a: int, b: int) -> int {
    if a <= b {
        a
    } else {
        b
    }
}

/// The awards of one group, one by one: the lines and the links to teams of the group
/// are paired in their order, each pair under the heading of the group. Where there are
/// more lines than links, or more links than lines, what has no partner is left out.
pub open spec fn group_honors(
    header: Option<Seq<char>>,
    lines: Seq<Option<Seq<char>>>,
    teams: Seq<(Option<Seq<char>>, Seq<char>)>,
) -> Seq<Result<HonorsView, ParseErrorView>> {
    Seq::new(
        smaller(lines.len() as int, teams.len() as int) as nat,
        |i: int| honor_of(header, lines[i], teams[i]),
    )
}

/// The awards of one group, from its heading, its lines and its links to teams.
pub fn honors_from_group(
    header: Option<&str>,
    lines: &Vec<Option<&str>>,
    teams: &Vec<(Option<&str>, &str)>,
) -> (r: Result<Vec<Honors>, ParseError>)
    ensures
        result_view(r) == collected(
            group_honors(header.deep_view(), lines.deep_view(), teams.deep_view()),
        ),
        r matches Ok(honors) ==> honors.len() == smaller(lines.len() as int, teams.len() as int),
{
    let count: usize = if lines.len() <= teams.len() {
        lines.len()
    } else {
        teams.len()
    };
    let ghost items = group_honors(header.deep_view(), lines.deep_view(), teams.deep_view());
    let mut out: Vec<Honors> = Vec::new();
    let mut i: usize = 0;
    assert(items.take(0) =~= Seq::empty());
    assert(out.deep_view() =~= Seq::empty());
    while i < count
        invariant
            i <= count,
            count == items.len(),
            count <= lines.len(),
            count <= teams.len(),
            out.len() == i,
            items == group_honors(header.deep_view(), lines.deep_view(), teams.deep_view()),
            collected(items.take(i as int)) == Ok::<Seq<HonorsView>, ParseErrorView>(
                out.deep_view(),
            ),
        decreases count - i,
    {
        let honor = honor_from_parts(header, lines[i], teams[i]);
        match push_row(&mut out, honor, Ghost(items), Ghost(i as int)) {
            Ok(_) => {},
            Err(e) => {
                return Err(e);
            },
        }
        proof {
            lemma_collected_all(items.take(i + 1));
        }
        i += 1;
    }
    assert(items.take(i as int) =~= items);
    Ok(out)
}

/// Pairing lines and links leaves out what has no partner: a group gives as many awards
/// as the shorter of its two lists is long, whenever it gives any.
pub proof fn lemma_honors_truncate(
    header: Option<Seq<char>>,
    lines: Seq<Option<Seq<char>>>,
    teams: Seq<(Option<Seq<char>>, Seq<char>)>,
)
    ensures
        group_honors(header, lines, teams).len() == smaller(lines.len() as int, teams.len() as int),
        collected(group_honors(header, lines, teams)) matches Ok(honors) ==> honors.len()
            == smaller(lines.len() as int, teams.len() as int),
{
    lemma_collected_all(group_honors(header, lines, teams));
}

/// The class that a picture shows, from its address: `images/tf2/icon/`, the name of the
/// class, and `.jpg`.
pub open spec fn class_of_icon(address: Seq<char>) -> Option<Class> {
    match without_prefix(address, "images/tf2/icon/"@) {
        Some(rest) => match without_suffix(rest, ".jpg"@) {
            Some(name) => Class::spelled_by(name),
            None => None,
        },
        None => None,
    }
}

/// The class that a picture shows, where it has an address and the address shows one.
pub open spec fn class_shown(icon: Option<Seq<char>>) -> Option<Class> {
    match icon {
        Some(address) => class_of_icon(address),
        None => None,
    }
}

/// The classes that pictures show, each once, in the order in which they are first
/// shown. A picture without an address, one whose address shows no class, and one that
/// shows a class again is passed over.
pub open spec fn classes_of(icons: Seq<Option<Seq<char>>>) -> Seq<Class>
    decreases icons.len(),
{
    if icons.len() == 0 {
        Seq::empty()
    } else {
        match class_shown(icons.last()) {
            Some(class) => if classes_of(icons.drop_last()).contains(class) {
                classes_of(icons.drop_last())
            } else {
                classes_of(icons.drop_last()).push(class)
            },
            None => classes_of(icons.drop_last()),
        }
    }
}

/// The classes that pictures show are a set: none is there twice, and a class is there
/// if and only if a picture shows it.
pub proof fn lemma_classes_are_a_set(icons: Seq<Option<Seq<char>>>)
    ensures
        classes_of(icons).no_duplicates(),
        forall|class: Class|
            classes_of(icons).contains(class) <==> exists|i: int|
                0 <= i < icons.len() && class_shown(#[trigger] icons[i]) == Some(class),
    decreases icons.len(),
{
    if icons.len() > 0 {
        let init = icons.drop_last();
        lemma_classes_are_a_set(init);
        let before = classes_of(init);
        let shown = class_shown(icons.last());
        assert forall|class: Class| classes_of(icons).contains(class) implies exists|i: int|
            0 <= i < icons.len() && class_shown(#[trigger] icons[i]) == Some(class) by {
            if before.contains(class) {
                let i = choose|i: int|
                    0 <= i < init.len() && class_shown(#[trigger] init[i]) == Some(class);
                assert(icons[i] == init[i]);
            } else {
                assert(shown == Some(class));
                assert(icons[icons.len() - 1] == icons.last());
            }
        }
        assert forall|class: Class|
            (exists|i: int|
                0 <= i < icons.len() && class_shown(#[trigger] icons[i]) == Some(class))
            implies classes_of(icons).contains(class) by {
            let i = choose|i: int|
                0 <= i < icons.len() && class_shown(#[trigger] icons[i]) == Some(class);
            if i < icons.len() - 1 {
                assert(init[i] == icons[i]);
                assert(before.contains(class));
                let at = choose|at: int| 0 <= at < before.len() && before[at] == class;
                if shown is Some && !before.contains(shown->0) {
                    assert(before.push(shown->0)[at] == class);
                }
            } else {
                if !before.contains(class) {
                    assert(before.push(class)[before.len() as int] == class);
                }
            }
        }
    }
}

/// Whether `class` is among `classes`.
fn holds(classes: &Vec<Class>, class: Class) -> (r: bool)
    ensures
        r == classes@.contains(class),
{
    let mut i: usize = 0;
    while i < classes.len()
        invariant
            i <= classes.len(),
            forall|j: int| 0 <= j < i ==> classes@[j] != class,
        decreases classes.len() - i,
    {
        if classes[i] == class {
            return true;
        }
        i += 1;
    }
    false
}

/// The class that a picture shows, from its address.
pub fn class_from_icon(address: &str) -> (r: Option<Class>)
    ensures
        r == class_of_icon(address@),
{
    match strip_prefix(address, "images/tf2/icon/") {
        Some(rest) => match strip_suffix(rest, ".jpg") {
            Some(name) => match Class::from_str(name) {
                Ok(class) => Some(class),
                Err(_) => None,
            },
            None => None,
        },
        None => None,
    }
}

/// The classes that pictures show, from their addresses.
pub fn classes_from_icons(icons: &Vec<Option<&str>>) -> (r: Vec<Class>)
    ensures
        r@ == classes_of(icons.deep_view()),
        r@.no_duplicates(),
{
    let ghost all = icons.deep_view();
    let mut out: Vec<Class> = Vec::new();
    let mut i: usize = 0;
    assert(all.take(0) =~= Seq::empty());
    while i < icons.len()
        invariant
            i <= icons.len(),
            all == icons.deep_view(),
            out@ == classes_of(all.take(i as int)),
        decreases icons.len() - i,
    {
        assert(all.take(i + 1).drop_last() =~= all.take(i as int));
        assert(all.take(i + 1).last() == icons@[i as int].deep_view());
        let shown = match icons[i] {
            Some(address) => class_from_icon(address),
            None => None,
        };
        match shown {
            Some(class) => {
                if !holds(&out, class) {
                    out.push(class);
                }
            },
            None => {},
        }
        i += 1;
    }
    assert(all.take(i as int) =~= all);
    proof {
        lemma_classes_are_a_set(all);
    }
    out
}

/// A team of a player, from the parts of its row: the address of the link to the team,
/// the name of the team, the league, and the last text of the row, which ends in the day
/// of joining. The day is read in the layout `days`.
pub open spec fn membership_of(
    address: Seq<char>,
    name: Option<Seq<char>>,
    league: Option<Seq<char>>,
    since: Option<Seq<char>>,
    days: Seq<char>,
) -> Result<TeamMemberShipView, ParseErrorView> {
    if league is None {
        Err(not_found(SELECTOR_PLAYER_TEAM_LEAGUE@, "players team league"@))
    } else if since is None {
        Err(not_found(SELECTOR_PLAYER_TEAM_SINCE@, "players team joined"@))
    } else if link_id(address) is None {
        Err(invalid_link(address, "team id"@))
    } else {
        match split_last(since->0, CharSet::Three('\n', ' ', '\t')) {
            None => Err(invalid_date(since->0, "team join date"@)),
            Some((_, day)) => match date_in_layout(trimmed(day), days) {
                None => Err(invalid_date(trimmed(day), "team join date"@)),
                Some(date) => Ok(
                    TeamMemberShipView {
                        team: TeamRefView { name: or_empty(name), id: link_id(address)->0 },
                        league: league->0,
                        since: date,
                    },
                ),
            },
        }
    }
}

/// A team of a player, from the parts of its row.
pub fn membership_from_cells(
    address: &str,
    name: Option<&str>,
    league: Option<&str>,
    since: Option<&str>,
    days: &DateFormat,
) -> (r: Result<TeamMemberShip, ParseError>)
    ensures
        result_view(r) == membership_of(
            address@,
            name.deep_view(),
            league.deep_view(),
            since.deep_view(),
            days@,
        ),
{
    let league = match league {
        Some(league) => league,
        None => {
            return Err(
                ParseError::element_not_found(SELECTOR_PLAYER_TEAM_LEAGUE, "players team league"),
            );
        },
    };
    let since = match since {
        Some(since) => since,
        None => {
            return Err(
                ParseError::element_not_found(SELECTOR_PLAYER_TEAM_SINCE, "players team joined"),
            );
        },
    };
    let id = match id_from_link(address) {
        Some(id) => id,
        None => {
            return Err(ParseError::bad_link(address, "team id"));
        },
    };
    let day = match rsplit_once(since, CharSet::Three('\n', ' ', '\t')) {
        Some((_, day)) => trim(day),
        None => {
            return Err(ParseError::bad_date(since, "team join date"));
        },
    };
    let since = match days.parse(day) {
        Some(date) => date,
        None => {
            return Err(ParseError::bad_date(day, "team join date"));
        },
    };
    Ok(
        TeamMemberShip {
            team: TeamRef { name: unwrap_or_empty(name).to_owned(), id },
            league: league.to_owned(),
            since,
        },
    )
}

/// The awards of one group of the page.
pub open spec fn honors_of_group(group: scraper::ElementRef) -> Result<
    Seq<HonorsView>,
    ParseErrorView,
> {
    collected(
        group_honors(
            selected_text(group, SELECTOR_PLAYER_HONORS_HEADER@),
            texts_of_all(matches_under(group, SELECTOR_PLAYER_HONORS_LEAGUE@)),
            links_of_all(matches_under(group, SELECTOR_PLAYER_HONORS_TEAM@)),
        ),
    )
}

/// The awards of the page, group by group.
pub open spec fn honors_lists(document: Seq<char>) -> Seq<
    Result<Seq<HonorsView>, ParseErrorView>,
> {
    matches_in(document, SELECTOR_PLAYER_HONORS_GROUP@).map_values(
        |group: scraper::ElementRef| honors_of_group(group),
    )
}

/// The address of a picture: that of the attribute `src` where the picture has it, else
/// that of `data-cfsrc`.
pub open spec fn icon_address(image: scraper::ElementRef) -> Option<Seq<char>> {
    match element_attr(image, "src"@) {
        Some(address) => Some(address),
        None => element_attr(image, "data-cfsrc"@),
    }
}

/// The addresses of the pictures of classes of the page.
pub open spec fn class_icons(document: Seq<char>) -> Seq<Option<Seq<char>>> {
    matches_in(document, SELECTOR_CLASS@).map_values(|image: scraper::ElementRef| icon_address(image))
}

/// The team of one row of the list of teams, which holds a link to the team.
pub open spec fn membership_of_row(row: scraper::ElementRef) -> Result<
    TeamMemberShipView,
    ParseErrorView,
> {
    membership_of(
        attr_or_empty(first_under(row, SELECTOR_PLAYER_TEAM_LINK@)->0, "href"@),
        selected_text(row, SELECTOR_PLAYER_TEAM_NAME@),
        selected_text(row, SELECTOR_PLAYER_TEAM_LEAGUE@),
        selected_last_text(row, SELECTOR_PLAYER_TEAM_SINCE@),
        DATE_FORMAT@,
    )
}

/// The teams of the page, row by row. Rows without a link to a team are no teams.
pub open spec fn team_rows(document: Seq<char>) -> Seq<Result<TeamMemberShipView, ParseErrorView>> {
    having(matches_in(document, SELECTOR_PLAYER_TEAM_GROUP@), SELECTOR_PLAYER_TEAM_LINK@).map_values(
        |row: scraper::ElementRef| membership_of_row(row),
    )
}

/// The text of the identifier of a player, from the address of the link that adds the
/// player as a friend: what follows `steam://friends/add/`.
pub open spec fn friend_id(address: Seq<char>) -> Seq<char> {
    or_empty(without_prefix(address, "steam://friends/add/"@))
}

/// The identifier of a player, from the address of the link that adds the player as a
/// friend. An address behind whose `steam://friends/add/` no identifier stands is no such
/// link.
pub open spec fn player_id(address: Seq<char>) -> Result<u64, ParseErrorView> {
    match text_id(friend_id(address)) {
        Some(id) => Ok(id),
        None => Err(invalid_link(address, "player steam id"@)),
    }
}

/// The identifier of a player, from the address of the link that adds the player as a
/// friend.
pub fn player_id_from_link(address: &str) -> (r: Result<SteamID, ParseError>)
    ensures
        result_view(r) == player_id(address@),
{
    let text = unwrap_or_empty(strip_prefix(address, "steam://friends/add/"));
    match SteamID::from_text(text) {
        Some(id) => Ok(id),
        None => Err(ParseError::bad_link(address, "player steam id")),
    }
}

/// The address of the picture of a player: that of the attribute `src` where the picture
/// has it, else that of `data-cfsrc`, else none.
pub open spec fn portrait(image: scraper::ElementRef) -> Seq<char> {
    match element_attr(image, "src"@) {
        Some(address) => address,
        None => attr_or_empty(image, "data-cfsrc"@),
    }
}

/// The country of a player: the title of the flag, where the page shows one.
pub open spec fn country(document: Seq<char>) -> Option<Seq<char>> {
    match first_in(document, SELECTOR_PLAYER_FLAG@) {
        Some(flag) => element_attr(flag, "title"@),
        None => None,
    }
}

/// The player of a profile page. The name, the link with the identifier and the picture
/// have to be there, and the link has to hold an identifier; then the awards are read
/// group by group and the teams row by row. The first part that is missing or malformed,
/// in this order, fails the page. No class is among the favorite classes twice.
pub open spec fn player_page(document: Seq<char>) -> Result<PlayerView, ScrapeErrorView> {
    let name = first_in(document, SELECTOR_PLAYER_NAME@);
    let id = first_in(document, SELECTOR_PLAYER_ID@);
    let avatar = first_in(document, SELECTOR_AVATAR@);
    let honors = gathered(honors_lists(document));
    let teams = collected(team_rows(document));
    if name is None {
        Err(ScrapeErrorView::Parse(not_found(SELECTOR_PLAYER_NAME@, "player name"@)))
    } else if id is None {
        Err(ScrapeErrorView::Parse(not_found(SELECTOR_PLAYER_ID@, "player steam id"@)))
    } else if player_id(attr_or_empty(id->0, "href"@)) is Err {
        Err(ScrapeErrorView::Parse(player_id(attr_or_empty(id->0, "href"@))->Err_0))
    } else if avatar is None {
        Err(ScrapeErrorView::Parse(not_found(SELECTOR_AVATAR@, "player avatar"@)))
    } else if honors is Err {
        Err(ScrapeErrorView::Parse(honors->Err_0))
    } else if teams is Err {
        Err(ScrapeErrorView::Parse(teams->Err_0))
    } else {
        Ok(
            PlayerView {
                name: or_empty(text_of(name->0)),
                avatar: portrait(avatar->0),
                steam_id: player_id(attr_or_empty(id->0, "href"@))->Ok_0,
                honors: honors->Ok_0,
                teams: teams->Ok_0,
                favorite_classes: classes_of(class_icons(document)),
                country: country(document),
            },
        )
    }
}

impl PlayerParser {
    fn group(&self, group: scraper::ElementRef) -> (r: Result<Vec<Honors>, ParseError>)
        ensures
            result_view(r) == honors_of_group(group),
    {
        proof {
            use_type_invariant(self);
        }
        let lines = first_texts(&self.selector_honors_league.select(group));
        let teams = links(&self.selector_honors_team.select(group));
        honors_from_group(self.selector_honors_header.select_text(group), &lines, &teams)
    }

    #[verifier::loop_isolation(false)]
    fn honors(&self, page: &Document) -> (r: Result<Vec<Honors>, ParseError>)
        ensures
            result_view(r) == gathered(honors_lists(page@)),
    {
        proof {
            use_type_invariant(self);
        }
        let groups = page.select(&self.selector_honors_group);
        let ghost lists = honors_lists(page@);
        let mut out: Vec<Honors> = Vec::new();
        let mut i: usize = 0;
        assert(lists.take(0) =~= Seq::empty());
        assert(out.deep_view() =~= Seq::empty());
        while i < groups.len()
            invariant
                i <= groups.len(),
                gathered(lists.take(i as int)) == Ok::<Seq<HonorsView>, ParseErrorView>(
                    out.deep_view(),
                ),
            decreases groups.len() - i,
        {
            let honors = self.group(groups[i]);
            match push_rows(&mut out, honors, Ghost(lists), Ghost(i as int)) {
                Ok(_) => {},
                Err(e) => {
                    return Err(e);
                },
            }
            i += 1;
        }
        assert(lists.take(i as int) =~= lists);
        Ok(out)
    }

    #[verifier::loop_isolation(false)]
    fn classes(&self, page: &Document) -> (r: Vec<Class>)
        ensures
            r@ == classes_of(class_icons(page@)),
    {
        proof {
            use_type_invariant(self);
        }
        let images = page.select(&self.selector_class);
        let mut icons: Vec<Option<&str>> = Vec::new();
        let mut i: usize = 0;
        while i < images.len()
            invariant
                i <= images.len(),
                icons.len() == i,
                forall|j: int|
                    0 <= j < i ==> (#[trigger] icons@[j]).deep_view() == icon_address(images@[j]),
            decreases images.len() - i,
        {
            let address = match attr(images[i], "src") {
                Some(address) => Some(address),
                None => attr(images[i], "data-cfsrc"),
            };
            icons.push(address);
            i += 1;
        }
        assert(icons.deep_view() =~= class_icons(page@));
        classes_from_icons(&icons)
    }

    #[verifier::loop_isolation(false)]
    fn teams(&self, page: &Document) -> (r: Result<Vec<TeamMemberShip>, ParseError>)
        ensures
            result_view(r) == collected(team_rows(page@)),
    {
        proof {
            use_type_invariant(self);
        }
        let rows = page.select(&self.selector_team_group);
        let kept = self.selector_team_link.keep(&rows);
        let ghost items = team_rows(page@);
        let mut out: Vec<TeamMemberShip> = Vec::new();
        let mut i: usize = 0;
        assert(items.take(0) =~= Seq::empty());
        assert(out.deep_view() =~= Seq::empty());
        while i < kept.len()
            invariant
                i <= kept.len(),
                collected(items.take(i as int)) == Ok::<Seq<TeamMemberShipView>, ParseErrorView>(
                    out.deep_view(),
                ),
            decreases kept.len() - i,
        {
            let row = kept[i];
            let address = match self.selector_team_link.first(row) {
                Some(link) => attr_or_default(link, "href"),
                None => crate::text::empty(),
            };
            let team = membership_from_cells(
                address,
                self.selector_team_name.select_text(row),
                self.selector_team_league.select_text(row),
                self.selector_team_since.select_last_text(row),
                &self.date_format,
            );
            proof {
                lemma_having(rows@, SELECTOR_PLAYER_TEAM_LINK@, i as int);
            }
            match push_row(&mut out, team, Ghost(items), Ghost(i as int)) {
                Ok(_) => {},
                Err(e) => {
                    return Err(e);
                },
            }
            i += 1;
        }
        assert(items.take(i as int) =~= items);
        Ok(out)
    }
}

impl Parser for PlayerParser {
    type Output = Player;

    open spec fn page(&self, document: Seq<char>) -> Result<PlayerView, ScrapeErrorView> {
        player_page(document)
    }

    fn parse(&self, document: &str) -> (r: Result<Player, ScrapeError>)
        ensures
            r matches Ok(player) ==> player.favorite_classes@.no_duplicates(),
    {
        proof {
            use_type_invariant(self);
            lemma_classes_are_a_set(class_icons(document@));
        }
        let page = Document::parse(document);
        let name = match page.first(&self.selector_name) {
            Some(name) => unwrap_or_empty(first_text_of(name)),
            None => {
                return Err(
                    ScrapeError::Parse(
                        ParseError::element_not_found(SELECTOR_PLAYER_NAME, "player name"),
                    ),
                );
            },
        };
        let steam_id = match page.first(&self.selector_id) {
            Some(link) => match player_id_from_link(attr_or_default(link, "href")) {
                Ok(id) => id,
                Err(e) => {
                    return Err(ScrapeError::Parse(e));
                },
            },
            None => {
                return Err(
                    ScrapeError::Parse(
                        ParseError::element_not_found(SELECTOR_PLAYER_ID, "player steam id"),
                    ),
                );
            },
        };
        let country = match page.first(&self.selector_flag) {
            Some(flag) => match attr(flag, "title") {
                Some(title) => Some(title.to_owned()),
                None => None,
            },
            None => None,
        };
        let avatar = match page.first(&self.selector_avatar) {
            Some(image) => match attr(image, "src") {
                Some(address) => address,
                None => attr_or_default(image, "data-cfsrc"),
            },
            None => {
                return Err(
                    ScrapeError::Parse(
                        ParseError::element_not_found(SELECTOR_AVATAR, "player avatar"),
                    ),
                );
            },
        };
        let honors = match self.honors(&page) {
            Ok(honors) => honors,
            Err(e) => {
                return Err(ScrapeError::Parse(e));
            },
        };
        let favorite_classes = self.classes(&page);
        let teams = match self.teams(&page) {
            Ok(teams) => teams,
            Err(e) => {
                return Err(ScrapeError::Parse(e));
            },
        };
        Ok(
            Player {
                name: name.to_owned(),
                avatar: avatar.to_owned(),
                steam_id,
                honors,
                teams,
                favorite_classes,
                country,
            },
        )
    }
}

} // verus!
