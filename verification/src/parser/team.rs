//! The profile page of a team.

use crate::collect::{collected, lemma_collected_all, push_row};
use crate::data::{
    Membership, MembershipView, NameChange, NameChangeView, Record, RecordView, Team, TeamView,
};
use crate::order::{
    lemma_ordered, lemma_ordered_holds, ordered, put_in_order, InOrder, Keyed,
};
use crate::date::{
    date_in_layout, is_calendar_date, lemma_key_follows_calendar, moment_in_layout, Date,
    DateFormat, DateView, Timestamp, TimestampView,
};
use crate::dom::{
    attr, attr_or_default, attr_or_empty, element_attr, element_texts, first_in, first_text_of,
    first_under, matches_in, root_of, selected_text, text_of, trimmed_texts, trimmed_texts_of,
    Document, Query,
};
use crate::error::{
    empty_text, invalid_date, invalid_link, invalid_text, not_found, result_view, ParseError,
    ParseErrorView, ScrapeError, ScrapeErrorView,
};
use crate::links::{link_long_id, steam_id_from_link};
use crate::number::{parse_u32, parse_u8, parsed_u32, parsed_u8};
use crate::parser::{Parser, DATE_FORMAT, MEMBER_DATE_ALT_FORMAT, MEMBER_DATE_FORMAT};
use crate::text::{
    before_first, begins_with, head_before, or_empty, replace, replaced, skip_leading,
    split_first, split_once, starts_with_char, trim, trim_start_of, trimmed, unwrap_or_empty,
    CharSet,
};
use crate::vocabulary::GameMode;
use vstd::prelude::*;
use vstd::string::*;

verus! {

pub const SELECTOR_TEAM_NAME: &'static str = ".container .col-md-12 h1 > b";

pub const SELECTOR_TEAM_TAG: &'static str = ".container .col-md-12 h1 > span";

pub const SELECTOR_TEAM_IMAGE: &'static str = ".container .col-md-12 a > img";

pub const SELECTOR_TEAM_FORMAT: &'static str =
    ".container .col-md-3 .white-row-small h5 .text-danger b";

pub const SELECTOR_TEAM_DIVISION: &'static str = ".container .col-md-3 .white-row-small h5 > b";

pub const SELECTOR_TEAM_TIMEZONE: &'static str =
    ".container .col-md-3 .white-row-small p > small > b";

pub const SELECTOR_TEAM_DESCRIPTION: &'static str =
    ".container .col-md-3 .white-row-small p:nth-child(4) > small";

pub const SELECTOR_TEAM_TITLES: &'static str =
    ".container .col-md-3 .white-row-small p > .text-warning";

pub const SELECTOR_STEAM: &'static str =
    "a.btn.btn-xs.btn-default[href*=\"//steamcommunity.com/groups\"]";

pub const SELECTOR_TEAM_MEMBER_ROW: &'static str =
    ".container .white-row-small > .row-fluid > .col-md-12 > .white-row-light-small";

pub const SELECTOR_TEAM_MEMBER_LINK: &'static str = "b > a[href^=\"players_page\"]";

pub const SELECTOR_TEAM_MEMBER_ROLE: &'static str = ".tinytext";

pub const SELECTOR_TEAM_MEMBER_SINCE: &'static str = ".tinytext > em";

pub const SELECTOR_TEAM_RECORDS: &'static str =
    ".container .col-md-3 .white-row-small .table-responsive > table tbody tr";

pub const SELECTOR_TEAM_RECORD_SEASON: &'static str = "td:nth-child(1) small span b";

pub const SELECTOR_TEAM_RECORD_DIVISION: &'static str = "td:nth-child(2) small";

pub const SELECTOR_TEAM_RECORD_RESULT: &'static str = "td:nth-child(3)";

pub const SELECTOR_TEAM_NAME_CHANGE: &'static str =
    ".white-row-small:nth-child(3) .table-responsive table tbody tr";

pub const SELECTOR_TEAM_NAME_FROM_TAG: &'static str = "td:nth-child(1) small";

pub const SELECTOR_TEAM_NAME_FROM_NAME: &'static str = "td:nth-child(2) small";

pub const SELECTOR_TEAM_NAME_TO_TAG: &'static str = "td:nth-child(3) small";

pub const SELECTOR_TEAM_NAME_TO_NAME: &'static str = "td:nth-child(4) small";

pub const SELECTOR_TEAM_NAME_DATE: &'static str = "td:nth-child(5) small";

/// Reads the profile page of a team.
pub struct TeamParser {
    selector_name: Query,
    selector_tag: Query,
    selector_image: Query,
    selector_team_format: Query,
    selector_team_division: Query,
    selector_team_timezone: Query,
    selector_team_description: Query,
    selector_team_titles: Query,
    selector_steam_group: Query,
    selector_team_member_row: Query,
    selector_team_member_link: Query,
    selector_team_member_role: Query,
    selector_team_member_since: Query,
    selector_team_records: Query,
    selector_team_record_season: Query,
    selector_team_record_division: Query,
    selector_team_record_result: Query,
    selector_team_name_item: Query,
    selector_team_name_from_tag: Query,
    selector_team_name_from_name: Query,
    selector_team_name_to_tag: Query,
    selector_team_name_to_name: Query,
    selector_team_name_date: Query,
    date_format: DateFormat,
    member_date_format: DateFormat,
    member_date_alt_format: DateFormat,
}

impl TeamParser {
    #[verifier::type_invariant]
    spec fn compiled(self) -> bool {
        &&& self.selector_name@ == SELECTOR_TEAM_NAME@
        &&& self.selector_tag@ == SELECTOR_TEAM_TAG@
        &&& self.selector_image@ == SELECTOR_TEAM_IMAGE@
        &&& self.selector_team_format@ == SELECTOR_TEAM_FORMAT@
        &&& self.selector_team_division@ == SELECTOR_TEAM_DIVISION@
        &&& self.selector_team_timezone@ == SELECTOR_TEAM_TIMEZONE@
        &&& self.selector_team_description@ == SELECTOR_TEAM_DESCRIPTION@
        &&& self.selector_team_titles@ == SELECTOR_TEAM_TITLES@
        &&& self.selector_steam_group@ == SELECTOR_STEAM@
        &&& self.selector_team_member_row@ == SELECTOR_TEAM_MEMBER_ROW@
        &&& self.selector_team_member_link@ == SELECTOR_TEAM_MEMBER_LINK@
        &&& self.selector_team_member_role@ == SELECTOR_TEAM_MEMBER_ROLE@
        &&& self.selector_team_member_since@ == SELECTOR_TEAM_MEMBER_SINCE@
        &&& self.selector_team_records@ == SELECTOR_TEAM_RECORDS@
        &&& self.selector_team_record_season@ == SELECTOR_TEAM_RECORD_SEASON@
        &&& self.selector_team_record_division@ == SELECTOR_TEAM_RECORD_DIVISION@
        &&& self.selector_team_record_result@ == SELECTOR_TEAM_RECORD_RESULT@
        &&& self.selector_team_name_item@ == SELECTOR_TEAM_NAME_CHANGE@
        &&& self.selector_team_name_from_tag@ == SELECTOR_TEAM_NAME_FROM_TAG@
        &&& self.selector_team_name_from_name@ == SELECTOR_TEAM_NAME_FROM_NAME@
        &&& self.selector_team_name_to_tag@ == SELECTOR_TEAM_NAME_TO_TAG@
        &&& self.selector_team_name_to_name@ == SELECTOR_TEAM_NAME_TO_NAME@
        &&& self.selector_team_name_date@ == SELECTOR_TEAM_NAME_DATE@
        &&& self.date_format@ == DATE_FORMAT@
        &&& self.member_date_format@ == MEMBER_DATE_FORMAT@
        &&& self.member_date_alt_format@ == MEMBER_DATE_ALT_FORMAT@
    }

    /// Whether the selectors and the layouts of dates of this parser are what they are meant to be.
    pub open spec fn selectors_compile() -> bool {
        &&& Query::is_selector(SELECTOR_TEAM_NAME@)
        &&& Query::is_selector(SELECTOR_TEAM_TAG@)
        &&& Query::is_selector(SELECTOR_TEAM_IMAGE@)
        &&& Query::is_selector(SELECTOR_TEAM_FORMAT@)
        &&& Query::is_selector(SELECTOR_TEAM_DIVISION@)
        &&& Query::is_selector(SELECTOR_TEAM_TIMEZONE@)
        &&& Query::is_selector(SELECTOR_TEAM_DESCRIPTION@)
        &&& Query::is_selector(SELECTOR_TEAM_TITLES@)
        &&& Query::is_selector(SELECTOR_STEAM@)
        &&& Query::is_selector(SELECTOR_TEAM_MEMBER_ROW@)
        &&& Query::is_selector(SELECTOR_TEAM_MEMBER_LINK@)
        &&& Query::is_selector(SELECTOR_TEAM_MEMBER_ROLE@)
        &&& Query::is_selector(SELECTOR_TEAM_MEMBER_SINCE@)
        &&& Query::is_selector(SELECTOR_TEAM_RECORDS@)
        &&& Query::is_selector(SELECTOR_TEAM_RECORD_SEASON@)
        &&& Query::is_selector(SELECTOR_TEAM_RECORD_DIVISION@)
        &&& Query::is_selector(SELECTOR_TEAM_RECORD_RESULT@)
        &&& Query::is_selector(SELECTOR_TEAM_NAME_CHANGE@)
        &&& Query::is_selector(SELECTOR_TEAM_NAME_FROM_TAG@)
        &&& Query::is_selector(SELECTOR_TEAM_NAME_FROM_NAME@)
        &&& Query::is_selector(SELECTOR_TEAM_NAME_TO_TAG@)
        &&& Query::is_selector(SELECTOR_TEAM_NAME_TO_NAME@)
        &&& Query::is_selector(SELECTOR_TEAM_NAME_DATE@)
        &&& DateFormat::is_layout(DATE_FORMAT@)
        &&& DateFormat::is_layout(MEMBER_DATE_FORMAT@)
        &&& DateFormat::is_layout(MEMBER_DATE_ALT_FORMAT@)
    }

    /// Compiles the selectors and the layouts of dates; nothing where one of them does not compile.
    pub fn new() -> (r: Option<TeamParser>)
        ensures
            r is Some <==> TeamParser::selectors_compile(),
    {
        let selector_name = match Query::compile(SELECTOR_TEAM_NAME) {
            Some(query) => query,
            None => {
                return None;
            },
        };
        let selector_tag = match Query::compile(SELECTOR_TEAM_TAG) {
            Some(query) => query,
            None => {
                return None;
            },
        };
        let selector_image = match Query::compile(SELECTOR_TEAM_IMAGE) {
            Some(query) => query,
            None => {
                return None;
            },
        };
        let selector_team_format = match Query::compile(SELECTOR_TEAM_FORMAT) {
            Some(query) => query,
            None => {
                return None;
            },
        };
        let selector_team_division = match Query::compile(SELECTOR_TEAM_DIVISION) {
            Some(query) => query,
            None => {
                return None;
            },
        };
        let selector_team_timezone = match Query::compile(SELECTOR_TEAM_TIMEZONE) {
            Some(query) => query,
            None => {
                return None;
            },
        };
        let selector_team_description = match Query::compile(SELECTOR_TEAM_DESCRIPTION) {
            Some(query) => query,
            None => {
                return None;
            },
        };
        let selector_team_titles = match Query::compile(SELECTOR_TEAM_TITLES) {
            Some(query) => query,
            None => {
                return None;
            },
        };
        let selector_steam_group = match Query::compile(SELECTOR_STEAM) {
            Some(query) => query,
            None => {
                return None;
            },
        };
        let selector_team_member_row = match Query::compile(SELECTOR_TEAM_MEMBER_ROW) {
            Some(query) => query,
            None => {
                return None;
            },
        };
        let selector_team_member_link = match Query::compile(SELECTOR_TEAM_MEMBER_LINK) {
            Some(query) => query,
            None => {
                return None;
            },
        };
        let selector_team_member_role = match Query::compile(SELECTOR_TEAM_MEMBER_ROLE) {
            Some(query) => query,
            None => {
                return None;
            },
        };
        let selector_team_member_since = match Query::compile(SELECTOR_TEAM_MEMBER_SINCE) {
            Some(query) => query,
            None => {
                return None;
            },
        };
        let selector_team_records = match Query::compile(SELECTOR_TEAM_RECORDS) {
            Some(query) => query,
            None => {
                return None;
            },
        };
        let selector_team_record_season = match Query::compile(SELECTOR_TEAM_RECORD_SEASON) {
            Some(query) => query,
            None => {
                return None;
            },
        };
        let selector_team_record_division = match Query::compile(SELECTOR_TEAM_RECORD_DIVISION) {
            Some(query) => query,
            None => {
                return None;
            },
        };
        let selector_team_record_result = match Query::compile(SELECTOR_TEAM_RECORD_RESULT) {
            Some(query) => query,
            None => {
                return None;
            },
        };
        let selector_team_name_item = match Query::compile(SELECTOR_TEAM_NAME_CHANGE) {
            Some(query) => query,
            None => {
                return None;
            },
        };
        let selector_team_name_from_tag = match Query::compile(SELECTOR_TEAM_NAME_FROM_TAG) {
            Some(query) => query,
            None => {
                return None;
            },
        };
        let selector_team_name_from_name = match Query::compile(SELECTOR_TEAM_NAME_FROM_NAME) {
            Some(query) => query,
            None => {
                return None;
            },
        };
        let selector_team_name_to_tag = match Query::compile(SELECTOR_TEAM_NAME_TO_TAG) {
            Some(query) => query,
            None => {
                return None;
            },
        };
        let selector_team_name_to_name = match Query::compile(SELECTOR_TEAM_NAME_TO_NAME) {
            Some(query) => query,
            None => {
                return None;
            },
        };
        let selector_team_name_date = match Query::compile(SELECTOR_TEAM_NAME_DATE) {
            Some(query) => query,
            None => {
                return None;
            },
        };
        let date_format = match DateFormat::compile(DATE_FORMAT) {
            Some(format) => format,
            None => {
                return None;
            },
        };
        let member_date_format = match DateFormat::compile(MEMBER_DATE_FORMAT) {
            Some(format) => format,
            None => {
                return None;
            },
        };
        let member_date_alt_format = match DateFormat::compile(MEMBER_DATE_ALT_FORMAT) {
            Some(format) => format,
            None => {
                return None;
            },
        };
        Some(
            TeamParser {
                selector_name,
                selector_tag,
                selector_image,
                selector_team_format,
                selector_team_division,
                selector_team_timezone,
                selector_team_description,
                selector_team_titles,
                selector_steam_group,
                selector_team_member_row,
                selector_team_member_link,
                selector_team_member_role,
                selector_team_member_since,
                selector_team_records,
                selector_team_record_season,
                selector_team_record_division,
                selector_team_record_result,
                selector_team_name_item,
                selector_team_name_from_tag,
                selector_team_name_from_name,
                selector_team_name_to_tag,
                selector_team_name_to_name,
                selector_team_name_date,
                date_format,
                member_date_format,
                member_date_alt_format,
            },
        )
    }
}

/// The name and the tag of a team, from the texts of the two in the page. One of the two
/// has to be there: a page with neither lacks the name of its team. A team without a name
/// goes by its tag.
pub open spec fn team_header(name: Option<Seq<char>>, tag: Option<Seq<char>>) -> Result<
    (Seq<char>, Seq<char>),
    ParseErrorView,
> {
    let name = or_empty(name);
    let tag = or_empty(tag);
    if tag.len() == 0 && name.len() == 0 {
        Err(not_found(SELECTOR_TEAM_NAME@, "team name"@))
    } else if name.len() == 0 {
        Ok((tag, tag))
    } else {
        Ok((name, tag))
    }
}

/// The name and the tag of a team, from the texts of the two in the page.
pub fn team_names(name: Option<&str>, tag: Option<&str>) -> (r: Result<
    (String, String),
    ParseError,
>)
    ensures
        result_view(r) == team_header(name.deep_view(), tag.deep_view()),
{
    let name = unwrap_or_empty(name);
    let tag = unwrap_or_empty(tag);
    if tag.is_empty() && name.is_empty() {
        Err(ParseError::element_not_found(SELECTOR_TEAM_NAME, "team name"))
    } else if name.is_empty() {
        Ok((tag.to_owned(), tag.to_owned()))
    } else {
        Ok((name.to_owned(), tag.to_owned()))
    }
}

/// The game mode of a team, from the text that states it.
pub open spec fn team_format(text: Option<Seq<char>>) -> Result<GameMode, ParseErrorView> {
    match text {
        None => Err(not_found(SELECTOR_TEAM_FORMAT@, "team format"@)),
        Some(text) => match GameMode::spelled_by(text) {
            Some(mode) => Ok(mode),
            None => Err(invalid_text(text, "team game mode"@)),
        },
    }
}

/// The game mode of a team, from the text that states it.
pub fn team_mode(text: Option<&str>) -> (r: Result<GameMode, ParseError>)
    ensures
        result_view(r) == team_format(text.deep_view()),
{
    match text {
        None => Err(ParseError::element_not_found(SELECTOR_TEAM_FORMAT, "team format")),
        Some(text) => match GameMode::from_str(text) {
            Ok(mode) => Ok(mode),
            Err(e) => Err(ParseError::bad_text(e.text.as_str(), "team game mode")),
        },
    }
}

/// The link of a team's group as the page should have written it: the site has doubled
/// the scheme of some.
pub open spec fn mended_link(link: Seq<char>) -> Seq<char> {
    replaced(link, "http://http"@, "http"@)
}

/// The record of one season, from the three cells of its row: the season, the division,
/// and wins and losses with `-` between them.
pub open spec fn record_of(
    season: Option<Seq<char>>,
    division: Option<Seq<char>>,
    result: Option<Seq<char>>,
) -> Result<RecordView, ParseErrorView> {
    if season is None {
        Err(not_found(SELECTOR_TEAM_RECORD_SEASON@, "team record season"@))
    } else if division is None {
        Err(not_found(SELECTOR_TEAM_RECORD_DIVISION@, "team record division"@))
    } else if result is None {
        Err(not_found(SELECTOR_TEAM_RECORD_RESULT@, "team record result"@))
    } else {
        match split_first(result->0, CharSet::One('-')) {
            None => Err(invalid_text(result->0, "team record result"@)),
            Some((wins, losses)) => if parsed_u32(season->0) is None {
                Err(invalid_text(season->0, "team record season"@))
            } else if parsed_u8(wins) is None {
                Err(invalid_text(wins, "team record wins"@))
            } else if parsed_u8(losses) is None {
                Err(invalid_text(losses, "team record losses"@))
            } else {
                Ok(
                    RecordView {
                        season: parsed_u32(season->0)->0,
                        division: division->0,
                        wins: parsed_u8(wins)->0,
                        losses: parsed_u8(losses)->0,
                    },
                )
            },
        }
    }
}

/// The record of one season, from the three cells of its row.
pub fn record_from_cells(season: Option<&str>, division: Option<&str>, result: Option<&str>) -> (r:
    Result<Record, ParseError>)
    ensures
        result_view(r) == record_of(season.deep_view(), division.deep_view(), result.deep_view()),
{
    let season = match season {
        Some(season) => season,
        None => {
            return Err(
                ParseError::element_not_found(SELECTOR_TEAM_RECORD_SEASON, "team record season"),
            );
        },
    };
    let division = match division {
        Some(division) => division,
        None => {
            return Err(
                ParseError::element_not_found(
                    SELECTOR_TEAM_RECORD_DIVISION,
                    "team record division",
                ),
            );
        },
    };
    let result = match result {
        Some(result) => result,
        None => {
            return Err(
                ParseError::element_not_found(SELECTOR_TEAM_RECORD_RESULT, "team record result"),
            );
        },
    };
    let (wins, losses) = match split_once(result, CharSet::One('-')) {
        Some(parts) => parts,
        None => {
            return Err(ParseError::bad_text(result, "team record result"));
        },
    };
    let season = match parse_u32(season) {
        Some(number) => number,
        None => {
            return Err(ParseError::bad_text(season, "team record season"));
        },
    };
    let wins = match parse_u8(wins) {
        Some(number) => number,
        None => {
            return Err(ParseError::bad_text(wins, "team record wins"));
        },
    };
    let losses = match parse_u8(losses) {
        Some(number) => number,
        None => {
            return Err(ParseError::bad_text(losses, "team record losses"));
        },
    };
    Ok(Record { season, division: division.to_owned(), wins, losses })
}

/// Whether the text of a member's joining shows a span of days, `(start - end)`, as the
/// older pages do, and not one moment.
pub open spec fn is_span(since: Seq<char>) -> bool {
    begins_with(since, '(')
}

/// The first day of a span of days: what stands before its first `-`, without the white
/// space around it and the `(` before it. A span without `-` has no first day.
pub open spec fn span_start(since: Seq<char>) -> Seq<char> {
    let head = match split_first(since, CharSet::One('-')) {
        Some((head, _)) => head,
        None => Seq::empty(),
    };
    skip_leading(trimmed(head), CharSet::One('('))
}

/// The moment of a member's joining, from the text of it and from what was read out of
/// the text: `day` out of the first day of a span, `moment` out of a text that shows one
/// moment. A span gives the first moment of its first day, on a clock that shows UTC.
pub open spec fn since_of(
    since: Seq<char>,
    day: Option<DateView>,
    moment: Option<TimestampView>,
) -> Result<TimestampView, ParseErrorView> {
    if is_span(since) {
        match day {
            Some(date) => Ok(
                TimestampView { date, hour: 0, minute: 0, second: 0, offset_hours: 0 },
            ),
            None => Err(invalid_date(since, "member join date (alternate format)"@)),
        }
    } else {
        match moment {
            Some(moment) => Ok(moment),
            None => Err(invalid_date(since, "member join date"@)),
        }
    }
}

/// The moment of a member's joining, from the text of it and from what was read out of
/// the text.
pub fn since_from(since: &str, day: Option<Date>, moment: Option<Timestamp>) -> (r: Result<
    Timestamp,
    ParseError,
>)
    ensures
        result_view(r) == since_of(since@, day.deep_view(), moment.deep_view()),
{
    if starts_with_char(since, '(') {
        match day {
            Some(date) => Ok(Timestamp::midnight_utc(date)),
            None => Err(ParseError::bad_date(since, "member join date (alternate format)")),
        }
    } else {
        match moment {
            Some(moment) => Ok(moment),
            None => Err(ParseError::bad_date(since, "member join date")),
        }
    }
}

/// The hours by which the clock of the site is ahead of UTC.
pub const SITE_OFFSET_HOURS: i8 = -5;

/// The moment of a member's joining, from the text of it. A span of days is read in the
/// layout `days`; one moment is read in the layout `moments`, on the clock of the site.
pub open spec fn joined_at(since: Seq<char>, moments: Seq<char>, days: Seq<char>) -> Result<
    TimestampView,
    ParseErrorView,
> {
    if is_span(since) {
        since_of(since, date_in_layout(span_start(since), days), None)
    } else {
        since_of(since, None, moment_in_layout(since, moments, SITE_OFFSET_HOURS as int))
    }
}

/// The moment of a member's joining, from the text of it, read in the two layouts that
/// are given.
pub fn member_since(since: &str, moments: &DateFormat, days: &DateFormat) -> (r: Result<
    Timestamp,
    ParseError,
>)
    ensures
        result_view(r) == joined_at(since@, moments@, days@),
{
    if starts_with_char(since, '(') {
        let head = match split_once(since, CharSet::One('-')) {
            Some((head, _)) => head,
            None => crate::text::empty(),
        };
        let start = trim_start_of(trim(head), CharSet::One('('));
        since_from(since, days.parse(start), None)
    } else {
        since_from(since, None, moments.parse_moment(since, SITE_OFFSET_HOURS))
    }
}

/// A member of the roster, from the parts of the row: the text and the address of the
/// link to the player, where the row has such a link; the text of the role; and the text
/// of the joining, which is read in the layouts `moments` and `days`.
pub open spec fn member_of(
    link: Option<(Option<Seq<char>>, Seq<char>)>,
    role: Option<Seq<char>>,
    since: Option<Seq<char>>,
    moments: Seq<char>,
    days: Seq<char>,
) -> Result<MembershipView, ParseErrorView> {
    match link {
        None => Err(not_found(SELECTOR_TEAM_MEMBER_LINK@, "team member link"@)),
        Some((name, address)) => if name is None {
            Err(empty_text(SELECTOR_TEAM_MEMBER_LINK@, "team member link"@))
        } else if role is None {
            Err(not_found(SELECTOR_TEAM_MEMBER_ROLE@, "team member role"@))
        } else if since is None {
            Err(not_found(SELECTOR_TEAM_MEMBER_SINCE@, "team member since"@))
        } else {
            match joined_at(trimmed(since->0), moments, days) {
                Err(e) => Err(e),
                Ok(at) => match link_long_id(address) {
                    None => Err(invalid_link(address, "user id"@)),
                    Some(id) => Ok(
                        MembershipView {
                            name: name->0,
                            steam_id: id,
                            role: trimmed(head_before(role->0, CharSet::One('\n'))),
                            since: at,
                        },
                    ),
                },
            }
        },
    }
}

/// A member of the roster, from the parts of the row.
pub fn member_from_cells(
    link: Option<(Option<&str>, &str)>,
    role: Option<&str>,
    since: Option<&str>,
    moments: &DateFormat,
    days: &DateFormat,
) -> (r: Result<Membership, ParseError>)
    ensures
        result_view(r) == member_of(
            link.deep_view(),
            role.deep_view(),
            since.deep_view(),
            moments@,
            days@,
        ),
{
    let (name, address) = match link {
        Some(link) => link,
        None => {
            return Err(
                ParseError::element_not_found(SELECTOR_TEAM_MEMBER_LINK, "team member link"),
            );
        },
    };
    let name = match name {
        Some(name) => name,
        None => {
            return Err(ParseError::no_text(SELECTOR_TEAM_MEMBER_LINK, "team member link"));
        },
    };
    let role = match role {
        Some(role) => role,
        None => {
            return Err(
                ParseError::element_not_found(SELECTOR_TEAM_MEMBER_ROLE, "team member role"),
            );
        },
    };
    let since = match since {
        Some(since) => since,
        None => {
            return Err(
                ParseError::element_not_found(SELECTOR_TEAM_MEMBER_SINCE, "team member since"),
            );
        },
    };
    let role = trim(before_first(role, CharSet::One('\n')));
    let since = member_since(trim(since), moments, days)?;
    let steam_id = steam_id_from_link(address)?;
    Ok(Membership { name: name.to_owned(), steam_id, role: role.to_owned(), since })
}

/// A change of name, from the five cells of its row. The tags may be missing; the names
/// and the day, which is read in the layout `days`, may not.
pub open spec fn name_change_of(
    from_tag: Option<Seq<char>>,
    from_name: Option<Seq<char>>,
    to_tag: Option<Seq<char>>,
    to_name: Option<Seq<char>>,
    date: Option<Seq<char>>,
    days: Seq<char>,
) -> Result<NameChangeView, ParseErrorView> {
    if from_name is None {
        Err(not_found(SELECTOR_TEAM_NAME_FROM_NAME@, "team name change from name"@))
    } else if to_name is None {
        Err(not_found(SELECTOR_TEAM_NAME_TO_NAME@, "team name change to name"@))
    } else if date is None {
        Err(not_found(SELECTOR_TEAM_NAME_DATE@, "team name change date"@))
    } else {
        match date_in_layout(date->0, days) {
            None => Err(invalid_date(date->0, "team name change date"@)),
            Some(day) => Ok(
                NameChangeView {
                    from_tag: or_empty(from_tag),
                    from: from_name->0,
                    to_tag: or_empty(to_tag),
                    to: to_name->0,
                    date: day,
                },
            ),
        }
    }
}

/// A change of name, from the five cells of its row.
pub fn name_change_from_cells(
    from_tag: Option<&str>,
    from_name: Option<&str>,
    to_tag: Option<&str>,
    to_name: Option<&str>,
    date: Option<&str>,
    days: &DateFormat,
) -> (r: Result<NameChange, ParseError>)
    ensures
        result_view(r) == name_change_of(
            from_tag.deep_view(),
            from_name.deep_view(),
            to_tag.deep_view(),
            to_name.deep_view(),
            date.deep_view(),
            days@,
        ),
{
    let from_tag = unwrap_or_empty(from_tag);
    let from_name = match from_name {
        Some(name) => name,
        None => {
            return Err(
                ParseError::element_not_found(
                    SELECTOR_TEAM_NAME_FROM_NAME,
                    "team name change from name",
                ),
            );
        },
    };
    let to_tag = unwrap_or_empty(to_tag);
    let to_name = match to_name {
        Some(name) => name,
        None => {
            return Err(
                ParseError::element_not_found(
                    SELECTOR_TEAM_NAME_TO_NAME,
                    "team name change to name",
                ),
            );
        },
    };
    let date = match date {
        Some(date) => date,
        None => {
            return Err(
                ParseError::element_not_found(SELECTOR_TEAM_NAME_DATE, "team name change date"),
            );
        },
    };
    let date = match days.parse(date) {
        Some(day) => day,
        None => {
            return Err(ParseError::bad_date(date, "team name change date"));
        },
    };
    Ok(
        NameChange {
            from_tag: from_tag.to_owned(),
            from: from_name.to_owned(),
            to_tag: to_tag.to_owned(),
            to: to_name.to_owned(),
            date,
        },
    )
}

/// The record of one row of the table of seasons.
pub open spec fn record_of_row(row: scraper::ElementRef) -> Result<RecordView, ParseErrorView> {
    record_of(
        selected_text(row, SELECTOR_TEAM_RECORD_SEASON@),
        selected_text(row, SELECTOR_TEAM_RECORD_DIVISION@),
        selected_text(row, SELECTOR_TEAM_RECORD_RESULT@),
    )
}

/// The text and the address of the link to a player in a row of the roster.
pub open spec fn member_link(row: scraper::ElementRef) -> Option<(Option<Seq<char>>, Seq<char>)> {
    match first_under(row, SELECTOR_TEAM_MEMBER_LINK@) {
        Some(link) => Some((text_of(link), attr_or_empty(link, "href"@))),
        None => None,
    }
}

/// The member of one row of the roster.
pub open spec fn member_of_row(row: scraper::ElementRef) -> Result<MembershipView, ParseErrorView> {
    member_of(
        member_link(row),
        selected_text(row, SELECTOR_TEAM_MEMBER_ROLE@),
        selected_text(row, SELECTOR_TEAM_MEMBER_SINCE@),
        MEMBER_DATE_FORMAT@,
        MEMBER_DATE_ALT_FORMAT@,
    )
}

/// The change of name of one row of the table of names.
pub open spec fn name_change_of_row(row: scraper::ElementRef) -> Result<
    NameChangeView,
    ParseErrorView,
> {
    name_change_of(
        selected_text(row, SELECTOR_TEAM_NAME_FROM_TAG@),
        selected_text(row, SELECTOR_TEAM_NAME_FROM_NAME@),
        selected_text(row, SELECTOR_TEAM_NAME_TO_TAG@),
        selected_text(row, SELECTOR_TEAM_NAME_TO_NAME@),
        selected_text(row, SELECTOR_TEAM_NAME_DATE@),
        DATE_FORMAT@,
    )
}

/// The records of the seasons of a page, row by row.
pub open spec fn record_rows(document: Seq<char>) -> Seq<Result<RecordView, ParseErrorView>> {
    matches_in(document, SELECTOR_TEAM_RECORDS@).map_values(
        |row: scraper::ElementRef| record_of_row(row),
    )
}

/// The members of the roster of a page, row by row.
pub open spec fn member_rows(document: Seq<char>) -> Seq<Result<MembershipView, ParseErrorView>> {
    matches_in(document, SELECTOR_TEAM_MEMBER_ROW@).map_values(
        |row: scraper::ElementRef| member_of_row(row),
    )
}

/// The changes of name of a page, row by row.
pub open spec fn name_change_rows(document: Seq<char>) -> Seq<
    Result<NameChangeView, ParseErrorView>,
> {
    matches_in(document, SELECTOR_TEAM_NAME_CHANGE@).map_values(
        |row: scraper::ElementRef| name_change_of_row(row),
    )
}

/// The address of the picture of a team: that of the attribute `data-cfsrc` where the
/// picture has it, else that of `src`, else none.
pub open spec fn picture(image: scraper::ElementRef) -> Seq<char> {
    match element_attr(image, "data-cfsrc"@) {
        Some(address) => address,
        None => attr_or_empty(image, "src"@),
    }
}

/// The link to the group of a team, where the page has one.
pub open spec fn group_link(root: scraper::ElementRef) -> Option<Seq<char>> {
    match first_under(root, SELECTOR_STEAM@) {
        Some(link) => match element_attr(link, "href"@) {
            Some(address) => Some(mended_link(address)),
            None => None,
        },
        None => None,
    }
}

/// The titles that a team has won.
pub open spec fn titles(document: Seq<char>) -> Seq<Seq<char>> {
    match first_in(document, SELECTOR_TEAM_TITLES@) {
        Some(list) => trimmed_texts(element_texts(list)),
        None => Seq::empty(),
    }
}

/// The team of a profile page. What is missing or malformed is looked for in this order:
/// name and tag, picture, game mode, division, the seasons row by row, the roster row by
/// row, the changes of name row by row. The first such part fails the page. Time zone,
/// group and description may be missing. The region is not read from this page.
///
/// The changes of name are put in the order of their days, the oldest first; changes of
/// one day stay in the order in which their rows are yielded.
pub open spec fn team_page(document: Seq<char>) -> Result<TeamView, ScrapeErrorView> {
    let root = root_of(document);
    let header = team_header(
        selected_text(root, SELECTOR_TEAM_NAME@),
        selected_text(root, SELECTOR_TEAM_TAG@),
    );
    let image = first_in(document, SELECTOR_TEAM_IMAGE@);
    let format = team_format(selected_text(root, SELECTOR_TEAM_FORMAT@));
    let division = selected_text(root, SELECTOR_TEAM_DIVISION@);
    let results = collected(record_rows(document));
    let members = collected(member_rows(document));
    let name_changes = collected(name_change_rows(document));
    if header is Err {
        Err(ScrapeErrorView::Parse(header->Err_0))
    } else if image is None {
        Err(ScrapeErrorView::Parse(not_found(SELECTOR_TEAM_IMAGE@, "team image"@)))
    } else if format is Err {
        Err(ScrapeErrorView::Parse(format->Err_0))
    } else if division is None {
        Err(ScrapeErrorView::Parse(not_found(SELECTOR_TEAM_DIVISION@, "team division"@)))
    } else if results is Err {
        Err(ScrapeErrorView::Parse(results->Err_0))
    } else if members is Err {
        Err(ScrapeErrorView::Parse(members->Err_0))
    } else if name_changes is Err {
        Err(ScrapeErrorView::Parse(name_changes->Err_0))
    } else {
        Ok(
            TeamView {
                name: header->Ok_0.0,
                tag: header->Ok_0.1,
                image: picture(image->0),
                format: format->Ok_0,
                region: None,
                timezone: selected_text(root, SELECTOR_TEAM_TIMEZONE@),
                steam_group: group_link(root),
                division: division->0,
                description: replaced(
                    or_empty(selected_text(root, SELECTOR_TEAM_DESCRIPTION@)),
                    "\n"@,
                    " "@,
                ),
                titles: titles(document),
                members: members->Ok_0,
                results: results->Ok_0,
                name_changes: ordered(name_changes->Ok_0),
            },
        )
    }
}

impl Keyed for NameChangeView {
    /// Changes of name are ordered by their days.
    open spec fn key(self) -> int {
        self.date.key()
    }
}

impl InOrder for NameChange {
    fn not_after(&self, other: &NameChange) -> (r: bool) {
        self.date.on_or_before(&other.date)
    }
}

/// The days of the changes of name of a page that reads never go back: each change is of
/// the day of the change behind it or of a day before that. The page gives one change
/// for each row of its table.
pub proof fn lemma_name_changes_oldest_first(document: Seq<char>)
    requires
        team_page(document) is Ok,
    ensures
        ({
            let changes = team_page(document)->Ok_0.name_changes;
            &&& changes.len() == name_change_rows(document).len()
            &&& changes.to_multiset() == collected(
                name_change_rows(document),
            )->Ok_0.to_multiset()
            &&& forall|i: int, j: int|
                0 <= i <= j < changes.len() ==> (#[trigger] changes[i]).date.on_or_before(
                    (#[trigger] changes[j]).date,
                )
        }),
{
    let rows = name_change_rows(document);
    let read = collected(rows)->Ok_0;
    let changes = ordered(read);
    lemma_collected_all(rows);
    lemma_ordered(read);
    assert forall|i: int, j: int| 0 <= i <= j < changes.len() implies (
    #[trigger] changes[i]).date.on_or_before((#[trigger] changes[j]).date) by {
        lemma_change_is_of_a_day(document, i);
        lemma_change_is_of_a_day(document, j);
        lemma_key_follows_calendar(changes[i].date, changes[j].date);
    }
}

/// Each change of name of a page is of a day that the calendar has.
proof fn lemma_change_is_of_a_day(document: Seq<char>, i: int)
    requires
        collected(name_change_rows(document)) is Ok,
        0 <= i < ordered(collected(name_change_rows(document))->Ok_0).len(),
    ensures
        ({
            let day = ordered(collected(name_change_rows(document))->Ok_0)[i].date;
            is_calendar_date(day.year, day.month, day.day)
        }),
{
    let rows = name_change_rows(document);
    let read = collected(rows)->Ok_0;
    lemma_collected_all(rows);
    lemma_ordered_holds(read, i);
    let j = choose|j: int| 0 <= j < read.len() && read[j] == ordered(read)[i];
    assert(rows[j] == Ok::<NameChangeView, ParseErrorView>(read[j]));
}

impl TeamParser {
    #[verifier::loop_isolation(false)]
    fn records(&self, page: &Document) -> (r: Result<Vec<Record>, ParseError>)
        ensures
            result_view(r) == collected(record_rows(page@)),
    {
        proof {
            use_type_invariant(self);
        }
        let rows = page.select(&self.selector_team_records);
        let ghost items = record_rows(page@);
        let mut out: Vec<Record> = Vec::new();
        let mut i: usize = 0;
        assert(items.take(0) =~= Seq::empty());
        assert(out.deep_view() =~= Seq::empty());
        while i < rows.len()
            invariant
                i <= rows.len(),
                collected(items.take(i as int)) == Ok::<Seq<RecordView>, ParseErrorView>(
                    out.deep_view(),
                ),
            decreases rows.len() - i,
        {
            let row = rows[i];
            let record = record_from_cells(
                self.selector_team_record_season.select_text(row),
                self.selector_team_record_division.select_text(row),
                self.selector_team_record_result.select_text(row),
            );
            match push_row(&mut out, record, Ghost(items), Ghost(i as int)) {
                Ok(_) => {},
                Err(e) => {
                    return Err(e);
                },
            }
            i += 1;
        }
        assert(items.take(i as int) =~= items);
        Ok(out)
    }

    #[verifier::loop_isolation(false)]
    fn members(&self, page: &Document) -> (r: Result<Vec<Membership>, ParseError>)
        ensures
            result_view(r) == collected(member_rows(page@)),
    {
        proof {
            use_type_invariant(self);
        }
        let rows = page.select(&self.selector_team_member_row);
        let ghost items = member_rows(page@);
        let mut out: Vec<Membership> = Vec::new();
        let mut i: usize = 0;
        assert(items.take(0) =~= Seq::empty());
        assert(out.deep_view() =~= Seq::empty());
        while i < rows.len()
            invariant
                i <= rows.len(),
                collected(items.take(i as int)) == Ok::<Seq<MembershipView>, ParseErrorView>(
                    out.deep_view(),
                ),
            decreases rows.len() - i,
        {
            let row = rows[i];
            let link = match self.selector_team_member_link.first(row) {
                Some(link) => Some((first_text_of(link), attr_or_default(link, "href"))),
                None => None,
            };
            let member = member_from_cells(
                link,
                self.selector_team_member_role.select_text(row),
                self.selector_team_member_since.select_text(row),
                &self.member_date_format,
                &self.member_date_alt_format,
            );
            match push_row(&mut out, member, Ghost(items), Ghost(i as int)) {
                Ok(_) => {},
                Err(e) => {
                    return Err(e);
                },
            }
            i += 1;
        }
        assert(items.take(i as int) =~= items);
        Ok(out)
    }

    #[verifier::loop_isolation(false)]
    fn name_changes(&self, page: &Document) -> (r: Result<Vec<NameChange>, ParseError>)
        ensures
            result_view(r) == collected(name_change_rows(page@)),
    {
        proof {
            use_type_invariant(self);
        }
        let rows = page.select(&self.selector_team_name_item);
        let ghost items = name_change_rows(page@);
        let mut out: Vec<NameChange> = Vec::new();
        let mut i: usize = 0;
        assert(items.take(0) =~= Seq::empty());
        assert(out.deep_view() =~= Seq::empty());
        while i < rows.len()
            invariant
                i <= rows.len(),
                collected(items.take(i as int)) == Ok::<Seq<NameChangeView>, ParseErrorView>(
                    out.deep_view(),
                ),
            decreases rows.len() - i,
        {
            let row = rows[i];
            let change = name_change_from_cells(
                self.selector_team_name_from_tag.select_text(row),
                self.selector_team_name_from_name.select_text(row),
                self.selector_team_name_to_tag.select_text(row),
                self.selector_team_name_to_name.select_text(row),
                self.selector_team_name_date.select_text(row),
                &self.date_format,
            );
            match push_row(&mut out, change, Ghost(items), Ghost(i as int)) {
                Ok(_) => {},
                Err(e) => {
                    return Err(e);
                },
            }
            i += 1;
        }
        assert(items.take(i as int) =~= items);
        Ok(out)
    }
}

impl Parser for TeamParser {
    type Output = Team;

    open spec fn page(&self, document: Seq<char>) -> Result<TeamView, ScrapeErrorView> {
        team_page(document)
    }

    fn parse(&self, document: &str) -> (r: Result<Team, ScrapeError>)
        ensures
            r matches Ok(team) ==> forall|i: int, j: int|
                0 <= i <= j < team.deep_view().name_changes.len() ==> (
                #[trigger] team.deep_view().name_changes[i]).date.on_or_before(
                    (#[trigger] team.deep_view().name_changes[j]).date,
                ),
    {
        proof {
            use_type_invariant(self);
            if team_page(document@) is Ok {
                lemma_name_changes_oldest_first(document@);
            }
        }
        let page = Document::parse(document);
        let root = page.root();
        let (name, tag) = match team_names(
            self.selector_name.select_text(root),
            self.selector_tag.select_text(root),
        ) {
            Ok(header) => header,
            Err(e) => {
                return Err(ScrapeError::Parse(e));
            },
        };
        let image = match page.first(&self.selector_image) {
            Some(image) => image,
            None => {
                return Err(
                    ScrapeError::Parse(
                        ParseError::element_not_found(SELECTOR_TEAM_IMAGE, "team image"),
                    ),
                );
            },
        };
        let image = match attr(image, "data-cfsrc") {
            Some(address) => address,
            None => attr_or_default(image, "src"),
        };
        let format = match team_mode(self.selector_team_format.select_text(root)) {
            Ok(format) => format,
            Err(e) => {
                return Err(ScrapeError::Parse(e));
            },
        };
        let steam_group = match self.selector_steam_group.first(root) {
            Some(link) => match attr(link, "href") {
                Some(address) => Some(replace(address, "http://http", "http")),
                None => None,
            },
            None => None,
        };
        let division = match self.selector_team_division.select_text(root) {
            Some(division) => division,
            None => {
                return Err(
                    ScrapeError::Parse(
                        ParseError::element_not_found(SELECTOR_TEAM_DIVISION, "team division"),
                    ),
                );
            },
        };
        let timezone = match self.selector_team_timezone.select_text(root) {
            Some(timezone) => Some(timezone.to_owned()),
            None => None,
        };
        let description = replace(
            unwrap_or_empty(self.selector_team_description.select_text(root)),
            "\n",
            " ",
        );
        let titles = match page.first(&self.selector_team_titles) {
            Some(list) => trimmed_texts_of(list),
            None => Vec::new(),
        };
        assert(titles.deep_view() =~= self::titles(document@));
        let results = match self.records(&page) {
            Ok(results) => results,
            Err(e) => {
                return Err(ScrapeError::Parse(e));
            },
        };
        let members = match self.members(&page) {
            Ok(members) => members,
            Err(e) => {
                return Err(ScrapeError::Parse(e));
            },
        };
        let name_changes = match self.name_changes(&page) {
            Ok(changes) => put_in_order(changes),
            Err(e) => {
                return Err(ScrapeError::Parse(e));
            },
        };
        Ok(
            Team {
                name,
                tag,
                image: image.to_owned(),
                format,
                region: None,
                timezone,
                steam_group,
                division: division.to_owned(),
                description,
                titles,
                members,
                results,
                name_changes,
            },
        )
    }
}

} // verus!
