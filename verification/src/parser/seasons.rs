//! The front page of the site, whose menus list the seasons of the past of each game
//! mode.

use crate::collect::{collected, push_row};
use crate::data::{Season, SeasonView, Seasons, SeasonsView};
use crate::dom::{
    attr, element_attr, first_text_of, having, matches_in, matches_under, selected_text,
    text_of, Document, Query,
};
use crate::error::{
    empty_text, result_view, whole, ParseError, ParseErrorView, ScrapeError, ScrapeErrorView,
};
use crate::parser::Parser;
use crate::text::{skip_prefixes, skip_suffixes, trim_end_matches, trim_start_matches};
use vstd::prelude::*;
use vstd::string::*;

verus! {

pub const SELECTOR_MENU: &'static str = ".sub-menu";

pub const SELECTOR_NAME: &'static str = ".mega-menu-sub-title";

pub const SELECTOR_SEASON_LINK: &'static str = "ul[id$=\"seasons\"] a[href^=\"rankings_\"]";

/// Reads the lists of seasons off the front page.
pub struct SeasonsParser {
    selector_menu: Query,
    selector_name: Query,
    selector_link: Query,
}

impl SeasonsParser {
    #[verifier::type_invariant]
    spec fn compiled(self) -> bool {
        &&& self.selector_menu@ == SELECTOR_MENU@
        &&& self.selector_name@ == SELECTOR_NAME@
        &&& self.selector_link@ == SELECTOR_SEASON_LINK@
    }

    /// Whether the selectors of this parser are what they are meant to be.
    pub open spec fn selectors_compile() -> bool {
        &&& Query::is_selector(SELECTOR_MENU@)
        &&& Query::is_selector(SELECTOR_NAME@)
        &&& Query::is_selector(SELECTOR_SEASON_LINK@)
    }

    /// Compiles the selectors; nothing where one of them does not compile.
    pub fn new() -> (r: Option<SeasonsParser>)
        ensures
            r is Some <==> SeasonsParser::selectors_compile(),
    {
        let selector_menu = match Query::compile(SELECTOR_MENU) {
            Some(query) => query,
            None => {
                return None;
            },
        };
        let selector_name = match Query::compile(SELECTOR_NAME) {
            Some(query) => query,
            None => {
                return None;
            },
        };
        let selector_link = match Query::compile(SELECTOR_SEASON_LINK) {
            Some(query) => query,
            None => {
                return None;
            },
        };
        Some(
            SeasonsParser {
                selector_menu,
                selector_name,
                selector_link,
            },
        )
    }
}

/// The name of a season, from the text of the link to it: the text without what the site
/// writes behind the name.
pub open spec fn season_name(text: Seq<char>) -> Seq<char> {
    skip_suffixes(
        skip_suffixes(skip_suffixes(text, " Final Standings"@), " Final Rank"@),
        " Final Ranks"@,
    )
}

/// The name of a season in the addresses of the site, from the address of its ranking:
/// what stands between `rankings_` and `.cfm`.
pub open spec fn season_id(address: Seq<char>) -> Seq<char> {
    skip_suffixes(skip_prefixes(address, "rankings_"@), ".cfm"@)
}

/// A season, from the text and the address of the link to its ranking.
pub open spec fn season_of(text: Option<Seq<char>>, address: Option<Seq<char>>) -> Result<
    SeasonView,
    ParseErrorView,
> {
    if text is None {
        Err(empty_text(SELECTOR_SEASON_LINK@, "season name"@))
    } else if address is None {
        Err(empty_text(SELECTOR_SEASON_LINK@, "season link"@))
    } else {
        Ok(SeasonView { id: season_id(address->0), name: season_name(text->0) })
    }
}

/// A season, from the text and the address of the link to its ranking.
pub fn season_from_link(text: Option<&str>, address: Option<&str>) -> (r: Result<Season, ParseError>)
    ensures
        result_view(r) == season_of(text.deep_view(), address.deep_view()),
{
    let text = match text {
        Some(text) => text,
        None => {
            return Err(ParseError::no_text(SELECTOR_SEASON_LINK, "season name"));
        },
    };
    let address = match address {
        Some(address) => address,
        None => {
            return Err(ParseError::no_text(SELECTOR_SEASON_LINK, "season link"));
        },
    };
    let name = trim_end_matches(
        trim_end_matches(trim_end_matches(text, " Final Standings"), " Final Rank"),
        " Final Ranks",
    );
    let id = trim_end_matches(trim_start_matches(address, "rankings_"), ".cfm");
    Ok(Season { id: id.to_owned(), name: name.to_owned() })
}

/// The seasons of one menu, link by link.
pub open spec fn links_of_menu(menu: scraper::ElementRef) -> Seq<Result<SeasonView, ParseErrorView>> {
    matches_under(menu, SELECTOR_SEASON_LINK@).map_values(
        |link: scraper::ElementRef| season_of(text_of(link), element_attr(link, "href"@)),
    )
}

/// The seasons of one game mode, from the title of its menu and from its seasons. The
/// title names the mode, with ` Menu` behind it.
pub open spec fn mode_of(
    title: Option<Seq<char>>,
    seasons: Result<Seq<SeasonView>, ParseErrorView>,
) -> Result<SeasonsView, ParseErrorView> {
    if title is None {
        Err(empty_text(SELECTOR_NAME@, "game mode name"@))
    } else if seasons is Err {
        Err(seasons->Err_0)
    } else {
        Ok(SeasonsView { mode: skip_suffixes(title->0, " Menu"@), seasons: seasons->Ok_0 })
    }
}

/// The seasons of one menu.
pub open spec fn mode_of_menu(menu: scraper::ElementRef) -> Result<SeasonsView, ParseErrorView> {
    mode_of(selected_text(menu, SELECTOR_NAME@), collected(links_of_menu(menu)))
}

/// The menus of a page that list seasons: those that hold a link to a ranking and a
/// title.
pub open spec fn season_menus(document: Seq<char>) -> Seq<scraper::ElementRef<'static>> {
    having(having(matches_in(document, SELECTOR_MENU@), SELECTOR_SEASON_LINK@), SELECTOR_NAME@)
}

/// The seasons of a page, menu by menu.
pub open spec fn menu_rows(document: Seq<char>) -> Seq<Result<SeasonsView, ParseErrorView>> {
    season_menus(document).map_values(|menu: scraper::ElementRef| mode_of_menu(menu))
}

/// The seasons of the past, game mode by game mode, in the order in which menus and
/// links are yielded. The first menu or link that holds no text fails the page.
pub open spec fn seasons_page(document: Seq<char>) -> Result<Seq<SeasonsView>, ScrapeErrorView> {
    whole(collected(menu_rows(document)))
}

impl SeasonsParser {
    #[verifier::loop_isolation(false)]
    fn seasons(&self, menu: scraper::ElementRef) -> (r: Result<Vec<Season>, ParseError>)
        ensures
            result_view(r) == collected(links_of_menu(menu)),
    {
        proof {
            use_type_invariant(self);
        }
        let links = self.selector_link.select(menu);
        let ghost items = links_of_menu(menu);
        let mut out: Vec<Season> = Vec::new();
        let mut i: usize = 0;
        assert(items.take(0) =~= Seq::empty());
        assert(out.deep_view() =~= Seq::empty());
        while i < links.len()
            invariant
                i <= links.len(),
                collected(items.take(i as int)) == Ok::<Seq<SeasonView>, ParseErrorView>(
                    out.deep_view(),
                ),
            decreases links.len() - i,
        {
            let season = season_from_link(first_text_of(links[i]), attr(links[i], "href"));
            match push_row(&mut out, season, Ghost(items), Ghost(i as int)) {
                Ok(_) => {},
                Err(e) => {
                    return Err(e);
                },
            }
            i += 1;
        }
        assert(items.take(i as int) =~= items);
        Ok(out)
    }

    fn menu(&self, menu: scraper::ElementRef) -> (r: Result<Seasons, ParseError>)
        ensures
            result_view(r) == mode_of_menu(menu),
    {
        proof {
            use_type_invariant(self);
        }
        let title = match self.selector_name.select_text(menu) {
            Some(title) => trim_end_matches(title, " Menu"),
            None => {
                return Err(ParseError::no_text(SELECTOR_NAME, "game mode name"));
            },
        };
        let seasons = self.seasons(menu)?;
        Ok(Seasons { mode: title.to_owned(), seasons })
    }
}

impl Parser for SeasonsParser {
    type Output = Vec<Seasons>;

    open spec fn page(&self, document: Seq<char>) -> Result<Seq<SeasonsView>, ScrapeErrorView> {
        seasons_page(document)
    }

    #[verifier::loop_isolation(false)]
    fn parse(&self, document: &str) -> (r: Result<Vec<Seasons>, ScrapeError>) {
        proof {
            use_type_invariant(self);
        }
        let page = Document::parse(document);
        let all = page.select(&self.selector_menu);
        let menus = self.selector_name.keep(&self.selector_link.keep(&all));
        let ghost items = menu_rows(document@);
        let mut out: Vec<Seasons> = Vec::new();
        let mut i: usize = 0;
        assert(items.take(0) =~= Seq::empty());
        assert(out.deep_view() =~= Seq::empty());
        while i < menus.len()
            invariant
                i <= menus.len(),
                collected(items.take(i as int)) == Ok::<Seq<SeasonsView>, ParseErrorView>(
                    out.deep_view(),
                ),
            decreases menus.len() - i,
        {
            let mode = self.menu(menus[i]);
            match push_row(&mut out, mode, Ghost(items), Ghost(i as int)) {
                Ok(_) => {},
                Err(e) => {
                    return Err(ScrapeError::Parse(e));
                },
            }
            i += 1;
        }
        assert(items.take(i as int) =~= items);
        Ok(out)
    }
}

} // verus!
