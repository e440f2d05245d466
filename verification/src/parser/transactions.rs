//! The page of who joined and who left the rosters of a game mode.

use crate::collect::{collected, push_row};
use crate::data::{TeamRef, TeamRefView, Transaction, TransactionView};
use crate::dom::{
    attr_or_default, attr_or_empty, first_text_of, first_under, having, lemma_having, link_of,
    matches_in, selected_last_text, selected_text, Document, Query,
};
use crate::error::{
    empty_text, invalid_link, invalid_text, not_found, result_view, whole, ParseError,
    ParseErrorView, ScrapeError, ScrapeErrorView,
};
use crate::links::{id_from_link, link_id, link_long_id, steam_id_from_link};
use crate::parser::Parser;
use crate::vocabulary::TransactionAction;
use vstd::prelude::*;
use vstd::string::*;

verus! {

pub const SELECTOR_TRANSACTION_ROW: &'static str = "table.table.table-condensed.table-striped tr";

pub const SELECTOR_TRANSACTION_PLAYER_LINK: &'static str =
    "a[href^=\"players_page\"][title^=\"Roster\"]";

pub const SELECTOR_TRANSACTION_ACTION: &'static str = "td:nth-child(4) span b";

pub const SELECTOR_TRANSACTION_TEAM_LINK: &'static str = "a[href^=\"team_page\"]";

pub const SELECTOR_TRANSACTION_TEAM_NAME: &'static str = "td:nth-child(5)";

/// Reads the page of the transactions of a game mode.
pub struct TransactionParser {
    selector_row: Query,
    selector_player: Query,
    selector_action: Query,
    selector_team_link: Query,
    selector_team_name: Query,
}

impl TransactionParser {
    #[verifier::type_invariant]
    spec fn compiled(self) -> bool {
        &&& self.selector_row@ == SELECTOR_TRANSACTION_ROW@
        &&& self.selector_player@ == SELECTOR_TRANSACTION_PLAYER_LINK@
        &&& self.selector_action@ == SELECTOR_TRANSACTION_ACTION@
        &&& self.selector_team_link@ == SELECTOR_TRANSACTION_TEAM_LINK@
        &&& self.selector_team_name@ == SELECTOR_TRANSACTION_TEAM_NAME@
    }

    /// Whether the selectors of this parser are what they are meant to be.
    pub open spec fn selectors_compile() -> bool {
        &&& Query::is_selector(SELECTOR_TRANSACTION_ROW@)
        &&& Query::is_selector(SELECTOR_TRANSACTION_PLAYER_LINK@)
        &&& Query::is_selector(SELECTOR_TRANSACTION_ACTION@)
        &&& Query::is_selector(SELECTOR_TRANSACTION_TEAM_LINK@)
        &&& Query::is_selector(SELECTOR_TRANSACTION_TEAM_NAME@)
    }

    /// Compiles the selectors; nothing where one of them does not compile.
    pub fn new() -> (r: Option<TransactionParser>)
        ensures
            r is Some <==> TransactionParser::selectors_compile(),
    {
        let selector_row = match Query::compile(SELECTOR_TRANSACTION_ROW) {
            Some(query) => query,
            None => {
                return None;
            },
        };
        let selector_player = match Query::compile(SELECTOR_TRANSACTION_PLAYER_LINK) {
            Some(query) => query,
            None => {
                return None;
            },
        };
        let selector_action = match Query::compile(SELECTOR_TRANSACTION_ACTION) {
            Some(query) => query,
            None => {
                return None;
            },
        };
        let selector_team_link = match Query::compile(SELECTOR_TRANSACTION_TEAM_LINK) {
            Some(query) => query,
            None => {
                return None;
            },
        };
        let selector_team_name = match Query::compile(SELECTOR_TRANSACTION_TEAM_NAME) {
            Some(query) => query,
            None => {
                return None;
            },
        };
        Some(
            TransactionParser {
                selector_row,
                selector_player,
                selector_action,
                selector_team_link,
                selector_team_name,
            },
        )
    }
}

/// One transaction, from the parts of its row: the text and the address of the link to
/// the player; the text of what the player did; the address of the link to the team,
/// where the row has such a link; and the last text of the cell of the team, which is its
/// name.
pub open spec fn transaction_of(
    player: (Option<Seq<char>>, Seq<char>),
    action: Option<Seq<char>>,
    team_address: Option<Seq<char>>,
    team_name: Option<Seq<char>>,
) -> Result<TransactionView, ParseErrorView> {
    if player.0 is None {
        Err(empty_text(SELECTOR_TRANSACTION_PLAYER_LINK@, "player name"@))
    } else if link_long_id(player.1) is None {
        Err(invalid_link(player.1, "user id"@))
    } else if action is None {
        Err(not_found(SELECTOR_TRANSACTION_ACTION@, "transaction action"@))
    } else if TransactionAction::spelled_by(action->0) is None {
        Err(invalid_text(action->0, "transaction"@))
    } else if team_address is None {
        Err(not_found(SELECTOR_TRANSACTION_TEAM_LINK@, "team link"@))
    } else if link_id(team_address->0) is None {
        Err(invalid_link(team_address->0, "team id"@))
    } else if team_name is None {
        Err(empty_text(SELECTOR_TRANSACTION_TEAM_NAME@, "team name"@))
    } else {
        Ok(
            TransactionView {
                name: player.0->0,
                steam_id: link_long_id(player.1)->0,
                action: TransactionAction::spelled_by(action->0)->0,
                team: TeamRefView { id: link_id(team_address->0)->0, name: team_name->0 },
            },
        )
    }
}

/// One transaction, from the parts of its row.
pub fn transaction_from_cells(
    player: (Option<&str>, &str),
    action: Option<&str>,
    team_address: Option<&str>,
    team_name: Option<&str>,
) -> (r: Result<Transaction, ParseError>)
    ensures
        result_view(r) == transaction_of(
            player.deep_view(),
            action.deep_view(),
            team_address.deep_view(),
            team_name.deep_view(),
        ),
{
    let (name, address) = player;
    let name = match name {
        Some(name) => name,
        None => {
            return Err(ParseError::no_text(SELECTOR_TRANSACTION_PLAYER_LINK, "player name"));
        },
    };
    let steam_id = steam_id_from_link(address)?;
    let action = match action {
        Some(action) => action,
        None => {
            return Err(
                ParseError::element_not_found(SELECTOR_TRANSACTION_ACTION, "transaction action"),
            );
        },
    };
    let action = match TransactionAction::from_str(action) {
        Ok(action) => action,
        Err(e) => {
            return Err(ParseError::from(e));
        },
    };
    let team_address = match team_address {
        Some(address) => address,
        None => {
            return Err(ParseError::element_not_found(SELECTOR_TRANSACTION_TEAM_LINK, "team link"));
        },
    };
    let id = match id_from_link(team_address) {
        Some(id) => id,
        None => {
            return Err(ParseError::bad_link(team_address, "team id"));
        },
    };
    let team_name = match team_name {
        Some(name) => name,
        None => {
            return Err(ParseError::no_text(SELECTOR_TRANSACTION_TEAM_NAME, "team name"));
        },
    };
    Ok(
        Transaction {
            name: name.to_owned(),
            steam_id,
            action,
            team: TeamRef { id, name: team_name.to_owned() },
        },
    )
}

/// The address of the link to the team of a row, where the row has such a link.
pub open spec fn team_address(row: scraper::ElementRef) -> Option<Seq<char>> {
    match first_under(row, SELECTOR_TRANSACTION_TEAM_LINK@) {
        Some(link) => Some(attr_or_empty(link, "href"@)),
        None => None,
    }
}

/// The transaction of one row, which holds a link to a player.
pub open spec fn transaction_of_row(row: scraper::ElementRef) -> Result<
    TransactionView,
    ParseErrorView,
> {
    transaction_of(
        link_of(first_under(row, SELECTOR_TRANSACTION_PLAYER_LINK@)->0),
        selected_text(row, SELECTOR_TRANSACTION_ACTION@),
        team_address(row),
        selected_last_text(row, SELECTOR_TRANSACTION_TEAM_NAME@),
    )
}

/// The transactions of a page, row by row. Rows without a link to a player are none.
pub open spec fn transaction_rows(document: Seq<char>) -> Seq<
    Result<TransactionView, ParseErrorView>,
> {
    having(
        matches_in(document, SELECTOR_TRANSACTION_ROW@),
        SELECTOR_TRANSACTION_PLAYER_LINK@,
    ).map_values(|row: scraper::ElementRef| transaction_of_row(row))
}

/// The transactions of a page, in the order in which their rows are yielded: the first
/// row that is missing a part or holds a malformed one fails the page.
pub open spec fn transactions_page(document: Seq<char>) -> Result<
    Seq<TransactionView>,
    ScrapeErrorView,
> {
    whole(collected(transaction_rows(document)))
}

impl Parser for TransactionParser {
    type Output = Vec<Transaction>;

    open spec fn page(&self, document: Seq<char>) -> Result<Seq<TransactionView>, ScrapeErrorView> {
        transactions_page(document)
    }

    #[verifier::loop_isolation(false)]
    fn parse(&self, document: &str) -> (r: Result<Vec<Transaction>, ScrapeError>) {
        proof {
            use_type_invariant(self);
        }
        let page = Document::parse(document);
        let all = page.select(&self.selector_row);
        let rows = self.selector_player.keep(&all);
        let ghost items = transaction_rows(document@);
        let mut out: Vec<Transaction> = Vec::new();
        let mut i: usize = 0;
        assert(items.take(0) =~= Seq::empty());
        assert(out.deep_view() =~= Seq::empty());
        while i < rows.len()
            invariant
                i <= rows.len(),
                collected(items.take(i as int)) == Ok::<Seq<TransactionView>, ParseErrorView>(
                    out.deep_view(),
                ),
            decreases rows.len() - i,
        {
            let row = rows[i];
            proof {
                lemma_having(all@, SELECTOR_TRANSACTION_PLAYER_LINK@, i as int);
            }
            let player = match self.selector_player.first(row) {
                Some(link) => (first_text_of(link), attr_or_default(link, "href")),
                None => (None, crate::text::empty()),
            };
            let team_address = match self.selector_team_link.first(row) {
                Some(link) => Some(attr_or_default(link, "href")),
                None => None,
            };
            let transaction = transaction_from_cells(
                player,
                self.selector_action.select_text(row),
                team_address,
                self.selector_team_name.select_last_text(row),
            );
            match push_row(&mut out, transaction, Ghost(items), Ghost(i as int)) {
                Ok(_) => {},
                Err(e) => {
                    return Err(ScrapeError::Parse(e));
                },
            }
            i += 1;
        }
        assert(items.take(i as int) =~= items);
        Ok(out)
    }
}

} // verus!
