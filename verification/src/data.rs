//! The records that the parsers make.
//!
//! Every record is made whole by one call of a parser and is not changed after. Records
//! do not point at each other: where one speaks of a team, it holds a `TeamRef`.
//!
//! Each record has a view that holds the same fields as values: text as `Seq<char>`,
//! lists as `Seq`. The contracts of the parsers speak of the views.

use crate::date::{Date, DateView, Timestamp, TimestampView};
use crate::steam::SteamID;
use crate::vocabulary::{Class, GameMode, MembershipRole, Region, TransactionAction};
use vstd::prelude::*;

verus! {

/// A team as other records refer to it: a copy of its name and number.
#[derive(Debug, Clone, PartialEq, Eq)]
pub struct TeamRef {
    pub name: String,
    pub id: u32,
}

/// What a `TeamRef` holds.
pub struct TeamRefView {
    pub name: Seq<char>,
    pub id: u32,
}

impl DeepView for TeamRef {
    type V = TeamRefView;

    open spec fn deep_view(&self) -> TeamRefView {
        TeamRefView {
            name: self.name@,
            id: self.id,
        }
    }
}

/// One award of a season that a player holds.
#[derive(Debug, Clone, PartialEq, Eq)]
pub struct Honors {
    pub format: GameMode,
    pub division: String,
    pub season: u8,
    pub team: TeamRef,
}

/// What a `Honors` holds.
pub struct HonorsView {
    pub format: GameMode,
    pub division: Seq<char>,
    pub season: u8,
    pub team: TeamRefView,
}

impl DeepView for Honors {
    type V = HonorsView;

    open spec fn deep_view(&self) -> HonorsView {
        HonorsView {
            format: self.format,
            division: self.division@,
            season: self.season,
            team: self.team.deep_view(),
        }
    }
}

/// A team that a player is a member of.
#[derive(Debug, Clone, PartialEq, Eq)]
pub struct TeamMemberShip {
    pub team: TeamRef,
    pub league: String,
    pub since: Date,
}

/// What a `TeamMemberShip` holds.
pub struct TeamMemberShipView {
    pub team: TeamRefView,
    pub league: Seq<char>,
    pub since: DateView,
}

impl DeepView for TeamMemberShip {
    type V = TeamMemberShipView;

    open spec fn deep_view(&self) -> TeamMemberShipView {
        TeamMemberShipView {
            team: self.team.deep_view(),
            league: self.league@,
            since: self.since.deep_view(),
        }
    }
}

/// A member of the league.
#[derive(Debug, Clone, PartialEq, Eq)]
pub struct Player {
    pub name: String,
    pub avatar: String,
    pub steam_id: SteamID,
    pub honors: Vec<Honors>,
    pub teams: Vec<TeamMemberShip>,
    pub favorite_classes: Vec<Class>,
    pub country: Option<String>,
}

/// What a `Player` holds.
pub struct PlayerView {
    pub name: Seq<char>,
    pub avatar: Seq<char>,
    pub steam_id: u64,
    pub honors: Seq<HonorsView>,
    pub teams: Seq<TeamMemberShipView>,
    pub favorite_classes: Seq<Class>,
    pub country: Option<Seq<char>>,
}

impl DeepView for Player {
    type V = PlayerView;

    open spec fn deep_view(&self) -> PlayerView {
        PlayerView {
            name: self.name@,
            avatar: self.avatar@,
            steam_id: self.steam_id.deep_view(),
            honors: self.honors.deep_view(),
            teams: self.teams.deep_view(),
            favorite_classes: self.favorite_classes@,
            country: self.country.deep_view(),
        }
    }
}

/// A team that a player is or was a member of. `left` is `None` while the player is
/// still a member.
#[derive(Debug, Clone, PartialEq, Eq)]
pub struct MembershipHistory {
    pub format: String,
    pub team: TeamRef,
    pub division: String,
    pub joined: Date,
    pub left: Option<Date>,
}

/// What a `MembershipHistory` holds.
pub struct MembershipHistoryView {
    pub format: Seq<char>,
    pub team: TeamRefView,
    pub division: Seq<char>,
    pub joined: DateView,
    pub left: Option<DateView>,
}

impl DeepView for MembershipHistory {
    type V = MembershipHistoryView;

    open spec fn deep_view(&self) -> MembershipHistoryView {
        MembershipHistoryView {
            format: self.format@,
            team: self.team.deep_view(),
            division: self.division@,
            joined: self.joined.deep_view(),
            left: self.left.deep_view(),
        }
    }
}

/// A change of a team's tag and name.
#[derive(Debug, Clone, PartialEq, Eq)]
pub struct NameChange {
    pub from_tag: String,
    pub from: String,
    pub to_tag: String,
    pub to: String,
    pub date: Date,
}

/// What a `NameChange` holds.
pub struct NameChangeView {
    pub from_tag: Seq<char>,
    pub from: Seq<char>,
    pub to_tag: Seq<char>,
    pub to: Seq<char>,
    pub date: DateView,
}

impl DeepView for NameChange {
    type V = NameChangeView;

    open spec fn deep_view(&self) -> NameChangeView {
        NameChangeView {
            from_tag: self.from_tag@,
            from: self.from@,
            to_tag: self.to_tag@,
            to: self.to@,
            date: self.date.deep_view(),
        }
    }
}

/// A member of a team's current roster, with the moment of joining.
#[derive(Debug, Clone, PartialEq, Eq)]
pub struct Membership {
    pub name: String,
    pub steam_id: SteamID,
    pub role: String,
    pub since: Timestamp,
}

/// What a `Membership` holds.
pub struct MembershipView {
    pub name: Seq<char>,
    pub steam_id: u64,
    pub role: Seq<char>,
    pub since: TimestampView,
}

impl DeepView for Membership {
    type V = MembershipView;

    open spec fn deep_view(&self) -> MembershipView {
        MembershipView {
            name: self.name@,
            steam_id: self.steam_id.deep_view(),
            role: self.role@,
            since: self.since.deep_view(),
        }
    }
}

/// The wins and losses of a team in one season.
#[derive(Debug, Clone, PartialEq, Eq)]
pub struct Record {
    pub season: u32,
    pub division: String,
    pub wins: u8,
    pub losses: u8,
}

/// What a `Record` holds.
pub struct RecordView {
    pub season: u32,
    pub division: Seq<char>,
    pub wins: u8,
    pub losses: u8,
}

impl DeepView for Record {
    type V = RecordView;

    open spec fn deep_view(&self) -> RecordView {
        RecordView {
            season: self.season,
            division: self.division@,
            wins: self.wins,
            losses: self.losses,
        }
    }
}

/// The profile of a team. `name_changes` run from the oldest to the newest.
#[derive(Debug, Clone, PartialEq, Eq)]
pub struct Team {
    pub name: String,
    pub tag: String,
    pub image: String,
    pub format: GameMode,
    pub region: Option<Region>,
    pub timezone: Option<String>,
    pub steam_group: Option<String>,
    pub division: String,
    pub description: String,
    pub titles: Vec<String>,
    pub members: Vec<Membership>,
    pub results: Vec<Record>,
    pub name_changes: Vec<NameChange>,
}

/// What a `Team` holds.
pub struct TeamView {
    pub name: Seq<char>,
    pub tag: Seq<char>,
    pub image: Seq<char>,
    pub format: GameMode,
    pub region: Option<Region>,
    pub timezone: Option<Seq<char>>,
    pub steam_group: Option<Seq<char>>,
    pub division: Seq<char>,
    pub description: Seq<char>,
    pub titles: Seq<Seq<char>>,
    pub members: Seq<MembershipView>,
    pub results: Seq<RecordView>,
    pub name_changes: Seq<NameChangeView>,
}

impl DeepView for Team {
    type V = TeamView;

    open spec fn deep_view(&self) -> TeamView {
        TeamView {
            name: self.name@,
            tag: self.tag@,
            image: self.image@,
            format: self.format,
            region: self.region,
            timezone: self.timezone.deep_view(),
            steam_group: self.steam_group.deep_view(),
            division: self.division@,
            description: self.description@,
            titles: self.titles.deep_view(),
            members: self.members.deep_view(),
            results: self.results.deep_view(),
            name_changes: self.name_changes.deep_view(),
        }
    }
}

/// A player who is or was on a team's roster. `left` is `None` while the player is still
/// on it.
#[derive(Debug, Clone, PartialEq, Eq)]
pub struct RosterHistory {
    pub name: String,
    pub steam_id: SteamID,
    pub joined: Date,
    pub left: Option<Date>,
    pub role: MembershipRole,
}

/// What a `RosterHistory` holds.
pub struct RosterHistoryView {
    pub name: Seq<char>,
    pub steam_id: u64,
    pub joined: DateView,
    pub left: Option<DateView>,
    pub role: MembershipRole,
}

impl DeepView for RosterHistory {
    type V = RosterHistoryView;

    open spec fn deep_view(&self) -> RosterHistoryView {
        RosterHistoryView {
            name: self.name@,
            steam_id: self.steam_id.deep_view(),
            joined: self.joined.deep_view(),
            left: self.left.deep_view(),
            role: self.role,
        }
    }
}

/// Everyone who is or was on a team's roster.
#[derive(Debug, Clone, PartialEq, Eq)]
pub struct TeamRosterData {
    pub steam_group: Option<String>,
    pub history: Vec<RosterHistory>,
}

/// What a `TeamRosterData` holds.
pub struct TeamRosterDataView {
    pub steam_group: Option<Seq<char>>,
    pub history: Seq<RosterHistoryView>,
}

impl DeepView for TeamRosterData {
    type V = TeamRosterDataView;

    open spec fn deep_view(&self) -> TeamRosterDataView {
        TeamRosterDataView {
            steam_group: self.steam_group.deep_view(),
            history: self.history.deep_view(),
        }
    }
}

/// How one week of a season went for a team. `Played` has a page of its own and points;
/// `Pending` has a page and no points yet; `Unknown` names an opponent and has no page to
/// link to, as on the oldest schedules; `ByeWeek` has no opponent. The points are the
/// texts of the page, each a decimal number.
#[derive(Debug, Clone, PartialEq, Eq)]
pub enum MatchResult {
    Played {
        id: u32,
        opponent: TeamRef,
        score: u8,
        score_opponent: u8,
        match_points: String,
        match_points_opponent: String,
    },
    Pending { id: u32, opponent: TeamRef, score: u8, score_opponent: u8 },
    Unknown { opponent: TeamRef, score: u8, score_opponent: u8 },
    ByeWeek,
}

/// What a `MatchResult` holds.
pub enum MatchResultView {
    Played {
        id: u32,
        opponent: TeamRefView,
        score: u8,
        score_opponent: u8,
        match_points: Seq<char>,
        match_points_opponent: Seq<char>,
    },
    Pending { id: u32, opponent: TeamRefView, score: u8, score_opponent: u8 },
    Unknown { opponent: TeamRefView, score: u8, score_opponent: u8 },
    ByeWeek,
}

impl DeepView for MatchResult {
    type V = MatchResultView;

    open spec fn deep_view(&self) -> MatchResultView {
        match *self {
            MatchResult::Played {
                id,
                opponent,
                score,
                score_opponent,
                match_points,
                match_points_opponent,
            } => MatchResultView::Played {
                id,
                opponent: opponent.deep_view(),
                score,
                score_opponent,
                match_points: match_points@,
                match_points_opponent: match_points_opponent@,
            },
            MatchResult::Pending { id, opponent, score, score_opponent } => MatchResultView::Pending {
                id,
                opponent: opponent.deep_view(),
                score,
                score_opponent,
            },
            MatchResult::Unknown { opponent, score, score_opponent } => MatchResultView::Unknown {
                opponent: opponent.deep_view(),
                score,
                score_opponent,
            },
            MatchResult::ByeWeek => MatchResultView::ByeWeek,
        }
    }
}

/// One week of a team's season.
#[derive(Debug, Clone, PartialEq, Eq)]
pub struct TeamSeasonMatch {
    pub division: String,
    pub week: u8,
    pub date: String,
    pub side: String,
    pub result: MatchResult,
    pub map: String,
}

/// What a `TeamSeasonMatch` holds.
pub struct TeamSeasonMatchView {
    pub division: Seq<char>,
    pub week: u8,
    pub date: Seq<char>,
    pub side: Seq<char>,
    pub result: MatchResultView,
    pub map: Seq<char>,
}

impl DeepView for TeamSeasonMatch {
    type V = TeamSeasonMatchView;

    open spec fn deep_view(&self) -> TeamSeasonMatchView {
        TeamSeasonMatchView {
            division: self.division@,
            week: self.week,
            date: self.date@,
            side: self.side@,
            result: self.result.deep_view(),
            map: self.map@,
        }
    }
}

/// The schedule of a team in one season.
#[derive(Debug, Clone, PartialEq, Eq)]
pub struct TeamSeason {
    pub season: u32,
    pub format: GameMode,
    pub matches: Vec<TeamSeasonMatch>,
}

/// What a `TeamSeason` holds.
pub struct TeamSeasonView {
    pub season: u32,
    pub format: GameMode,
    pub matches: Seq<TeamSeasonMatchView>,
}

impl DeepView for TeamSeason {
    type V = TeamSeasonView;

    open spec fn deep_view(&self) -> TeamSeasonView {
        TeamSeasonView {
            season: self.season,
            format: self.format,
            matches: self.matches.deep_view(),
        }
    }
}

/// The schedules of a team, season by season.
#[derive(Debug, Clone, PartialEq, Eq)]
pub struct TeamMatches {
    pub team: TeamRef,
    pub seasons: Vec<TeamSeason>,
}

/// What a `TeamMatches` holds.
pub struct TeamMatchesView {
    pub team: TeamRefView,
    pub seasons: Seq<TeamSeasonView>,
}

impl DeepView for TeamMatches {
    type V = TeamMatchesView;

    open spec fn deep_view(&self) -> TeamMatchesView {
        TeamMatchesView {
            team: self.team.deep_view(),
            seasons: self.seasons.deep_view(),
        }
    }
}

/// A season of the past: the name that the site shows and the name in its addresses.
#[derive(Debug, Clone, PartialEq, Eq)]
pub struct Season {
    pub id: String,
    pub name: String,
}

/// What a `Season` holds.
pub struct SeasonView {
    pub id: Seq<char>,
    pub name: Seq<char>,
}

impl DeepView for Season {
    type V = SeasonView;

    open spec fn deep_view(&self) -> SeasonView {
        SeasonView {
            id: self.id@,
            name: self.name@,
        }
    }
}

/// The seasons of the past of one game mode.
#[derive(Debug, Clone, PartialEq, Eq)]
pub struct Seasons {
    pub mode: String,
    pub seasons: Vec<Season>,
}

/// What a `Seasons` holds.
pub struct SeasonsView {
    pub mode: Seq<char>,
    pub seasons: Seq<SeasonView>,
}

impl DeepView for Seasons {
    type V = SeasonsView;

    open spec fn deep_view(&self) -> SeasonsView {
        SeasonsView {
            mode: self.mode@,
            seasons: self.seasons.deep_view(),
        }
    }
}

/// What the page of a match tells of it. `default_date` is the text of the page.
#[derive(Debug, Clone, PartialEq, Eq)]
pub struct MatchInfo {
    pub comment: Option<String>,
    pub comment_author: Option<String>,
    pub team_home: TeamRef,
    pub team_away: TeamRef,
    pub score_home: u8,
    pub score_away: u8,
    pub map: String,
    pub week: u8,
    pub format: GameMode,
    pub default_date: String,
}

/// What a `MatchInfo` holds.
pub struct MatchInfoView {
    pub comment: Option<Seq<char>>,
    pub comment_author: Option<Seq<char>>,
    pub team_home: TeamRefView,
    pub team_away: TeamRefView,
    pub score_home: u8,
    pub score_away: u8,
    pub map: Seq<char>,
    pub week: u8,
    pub format: GameMode,
    pub default_date: Seq<char>,
}

impl DeepView for MatchInfo {
    type V = MatchInfoView;

    open spec fn deep_view(&self) -> MatchInfoView {
        MatchInfoView {
            comment: self.comment.deep_view(),
            comment_author: self.comment_author.deep_view(),
            team_home: self.team_home.deep_view(),
            team_away: self.team_away.deep_view(),
            score_home: self.score_home,
            score_away: self.score_away,
            map: self.map@,
            week: self.week,
            format: self.format,
            default_date: self.default_date@,
        }
    }
}

/// A player joining or leaving a roster.
#[derive(Debug, Clone, PartialEq, Eq)]
pub struct Transaction {
    pub name: String,
    pub steam_id: SteamID,
    pub action: TransactionAction,
    pub team: TeamRef,
}

/// What a `Transaction` holds.
pub struct TransactionView {
    pub name: Seq<char>,
    pub steam_id: u64,
    pub action: TransactionAction,
    pub team: TeamRefView,
}

impl DeepView for Transaction {
    type V = TransactionView;

    open spec fn deep_view(&self) -> TransactionView {
        TransactionView {
            name: self.name@,
            steam_id: self.steam_id.deep_view(),
            action: self.action,
            team: self.team.deep_view(),
        }
    }
}

/// A week of the running season. Its dates are the texts of the page, which leave the
/// year out.
#[derive(Debug, Clone, PartialEq, Eq)]
pub struct CurrentSeasonMap {
    pub week: u8,
    pub map: String,
    pub date: String,
    pub na_date: Option<String>,
}

/// What a `CurrentSeasonMap` holds.
pub struct CurrentSeasonMapView {
    pub week: u8,
    pub map: Seq<char>,
    pub date: Seq<char>,
    pub na_date: Option<Seq<char>>,
}

impl DeepView for CurrentSeasonMap {
    type V = CurrentSeasonMapView;

    open spec fn deep_view(&self) -> CurrentSeasonMapView {
        CurrentSeasonMapView {
            week: self.week,
            map: self.map@,
            date: self.date@,
            na_date: self.na_date.deep_view(),
        }
    }
}

/// The maps of the running season.
#[derive(Debug, Clone, PartialEq, Eq)]
pub struct CurrentSeasonMapList {
    pub season: u8,
    pub maps: Vec<CurrentSeasonMap>,
}

/// What a `CurrentSeasonMapList` holds.
pub struct CurrentSeasonMapListView {
    pub season: u8,
    pub maps: Seq<CurrentSeasonMapView>,
}

impl DeepView for CurrentSeasonMapList {
    type V = CurrentSeasonMapListView;

    open spec fn deep_view(&self) -> CurrentSeasonMapListView {
        CurrentSeasonMapListView {
            season: self.season,
            maps: self.maps.deep_view(),
        }
    }
}

/// A week of a season of the past.
#[derive(Debug, Clone, PartialEq, Eq)]
pub struct PreviousSeasonMap {
    pub week: u8,
    pub map: String,
    pub date: Date,
}

/// What a `PreviousSeasonMap` holds.
pub struct PreviousSeasonMapView {
    pub week: u8,
    pub map: Seq<char>,
    pub date: DateView,
}

impl DeepView for PreviousSeasonMap {
    type V = PreviousSeasonMapView;

    open spec fn deep_view(&self) -> PreviousSeasonMapView {
        PreviousSeasonMapView {
            week: self.week,
            map: self.map@,
            date: self.date.deep_view(),
        }
    }
}

/// The maps of one season of the past.
#[derive(Debug, Clone, PartialEq, Eq)]
pub struct PreviousSeasonMapList {
    pub season: u8,
    pub maps: Vec<PreviousSeasonMap>,
}

/// What a `PreviousSeasonMapList` holds.
pub struct PreviousSeasonMapListView {
    pub season: u8,
    pub maps: Seq<PreviousSeasonMapView>,
}

impl DeepView for PreviousSeasonMapList {
    type V = PreviousSeasonMapListView;

    open spec fn deep_view(&self) -> PreviousSeasonMapListView {
        PreviousSeasonMapListView {
            season: self.season,
            maps: self.maps.deep_view(),
        }
    }
}

/// The maps that a game mode has played, week by week.
#[derive(Debug, Clone, PartialEq, Eq)]
pub struct MapHistory {
    pub current: CurrentSeasonMapList,
    pub previous: Vec<PreviousSeasonMapList>,
}

/// What a `MapHistory` holds.
pub struct MapHistoryView {
    pub current: CurrentSeasonMapListView,
    pub previous: Seq<PreviousSeasonMapListView>,
}

impl DeepView for MapHistory {
    type V = MapHistoryView;

    open spec fn deep_view(&self) -> MapHistoryView {
        MapHistoryView {
            current: self.current.deep_view(),
            previous: self.previous.deep_view(),
        }
    }
}

impl MatchResultView {
    /// The number of the page of the match, where it has one.
    pub open spec fn match_id(self) -> Option<u32> {
        match self {
            MatchResultView::Played { id, .. } => Some(id),
            MatchResultView::Pending { id, .. } => Some(id),
            _ => None,
        }
    }

    /// The opponent, where there is one.
    pub open spec fn opponent(self) -> Option<TeamRefView> {
        match self {
            MatchResultView::Played { opponent, .. } => Some(opponent),
            MatchResultView::Pending { opponent, .. } => Some(opponent),
            MatchResultView::Unknown { opponent, .. } => Some(opponent),
            MatchResultView::ByeWeek => None,
        }
    }
}

impl MatchResult {
    /// The number of the page of the match: a match that was played or is yet to be played
    /// has one.
    pub fn match_id(&self) -> (r: Option<u32>)
        ensures
            r == self.deep_view().match_id(),
    {
        match self {
            MatchResult::Played { id, .. } => Some(*id),
            MatchResult::Pending { id, .. } => Some(*id),
            _ => None,
        }
    }

    /// The opponent: every week but a free one has one.
    pub fn opponents(&self) -> (r: Option<&TeamRef>)
        ensures
            r.deep_view() == self.deep_view().opponent(),
    {
        match self {
            MatchResult::Played { opponent, .. } => Some(opponent),
            MatchResult::Pending { opponent, .. } => Some(opponent),
            MatchResult::Unknown { opponent, .. } => Some(opponent),
            MatchResult::ByeWeek => None,
        }
    }
}

} // verus!
