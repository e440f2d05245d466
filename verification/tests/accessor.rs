use ugc_scraper::dom::{
    attr, attr_or_default, child_element_count, first_text_in, first_text_of, last_text_of,
    texts, trimmed_texts_of, Document, Query,
};
use ugc_scraper::error::{ParseError, ScrapeError};
use ugc_scraper::vocabulary::{
    GameMode, InvalidClass, InvalidGameMode, InvalidMembershipRole, InvalidRegion,
    MallFormedTransaction, MembershipRole, Region,
};

const PAGE: &str = r#"<html><body>
<div id="a" class="row"> <b> </b> <i>first</i> middle <span> last </span> </div>
<div id="b" class="row"><b> </b><i>
</i></div>
<div id="c" class="row">one<br>two<p>three</p></div>
<ul><li>1</li>text<li>2</li><!-- note --><li>3</li></ul>
</body></html>"#;

#[test]
fn text_of_an_element_is_its_first_that_is_not_blank() {
    let page = Document::parse(PAGE);
    let row = Query::compile(".row").unwrap();
    let rows = row.select(page.root());
    assert_eq!(rows.len(), 3);
    assert_eq!(first_text_of(rows[0]), Some("first"));
    assert_eq!(last_text_of(rows[0]), Some(""));
    assert_eq!(first_text_of(rows[1]), None);
    assert_eq!(last_text_of(rows[1]), Some(""));
    assert_eq!(first_text_of(rows[2]), Some("one"));
    assert_eq!(last_text_of(rows[2]), Some("three"));
    assert_eq!(trimmed_texts_of(rows[0]), vec!["first", "middle", "last"]);
    assert_eq!(trimmed_texts_of(rows[1]), Vec::<String>::new());
    assert_eq!(texts(rows[2]), vec!["one", "two", "three"]);
    assert_eq!(first_text_in(&vec![" ", "\n", " x ", "y"]), Some("x"));
    assert_eq!(first_text_in(&Vec::new()), None);
}

#[test]
fn selecting_tells_a_missing_element_from_an_empty_one() {
    let page = Document::parse(PAGE);
    let root = page.root();
    let filled = Query::compile("#a").unwrap();
    let blank = Query::compile("#b").unwrap();
    let missing = Query::compile("#z").unwrap();
    assert_eq!(filled.select_text(root), Some("first"));
    assert_eq!(blank.select_text(root), None);
    assert_eq!(missing.select_text(root), None);
    assert_eq!(filled.select_text_empty(root), Some("first"));
    assert_eq!(blank.select_text_empty(root), Some(""));
    assert_eq!(missing.select_text_empty(root), None);
    assert_eq!(filled.select_last_text(root), Some(""));
    assert_eq!(Query::compile("#c").unwrap().select_last_text(root), Some("three"));
    assert_eq!(missing.select_last_text(root), None);
    assert!(missing.first(root).is_none());
    assert!(page.first(&missing).is_none());
    assert_eq!(page.select(&Query::compile("div").unwrap()).len(), 3);
    assert_eq!(filled.text(), "#a");
}

#[test]
fn attributes_and_children_of_an_element() {
    let page = Document::parse(PAGE);
    let first = page.first(&Query::compile("div").unwrap()).unwrap();
    assert_eq!(attr(first, "id"), Some("a"));
    assert_eq!(attr(first, "class"), Some("row"));
    assert_eq!(attr(first, "href"), None);
    assert_eq!(attr_or_default(first, "href"), "");
    assert_eq!(attr_or_default(first, "id"), "a");
    assert_eq!(child_element_count(first), 3);
    let list = page.first(&Query::compile("ul").unwrap()).unwrap();
    assert_eq!(child_element_count(list), 3);
    let item = page.first(&Query::compile("li").unwrap()).unwrap();
    assert_eq!(child_element_count(item), 0);
}

#[test]
fn rows_are_kept_by_what_they_hold() {
    let page = Document::parse(PAGE);
    let rows = page.select(&Query::compile(".row").unwrap());
    let kept = Query::compile("p").unwrap().keep(&rows);
    assert_eq!(kept.len(), 1);
    assert_eq!(attr(kept[0], "id"), Some("c"));
    assert_eq!(Query::compile("b").unwrap().keep(&rows).len(), 2);
    assert_eq!(Query::compile("table").unwrap().keep(&rows).len(), 0);
}

#[test]
fn text_that_is_no_selector_compiles_to_nothing() {
    assert!(Query::compile("div >").is_none());
    assert!(Query::compile("").is_none());
    assert!(Query::compile("a[href^=\"x\"]:not(.y)").is_some());
}

#[test]
fn any_text_is_a_page() {
    for text in ["", "plain", "<<<>>>", "<table><tr><td>loose", "\u{0}"] {
        let page = Document::parse(text);
        assert_eq!(first_text_of(page.root()).is_some(), text == "plain" || text == "<<<>>>" || text == "<table><tr><td>loose");
    }
}

#[test]
fn errors_say_what_went_wrong() {
    assert_eq!(
        ParseError::ElementNotFound { selector: "h5 b", role: "member name" }.message(),
        "Couldn't find expected element 'h5 b' for member name"
    );
    assert_eq!(
        ParseError::EmptyText { selector: "h5 b", role: "member name" }.message(),
        "Element 'h5 b' doesn't contain text for member name"
    );
    assert_eq!(
        ParseError::InvalidText { text: "x".to_string(), role: "match week" }.message(),
        "Invalid text for match week: x"
    );
    assert_eq!(
        ParseError::InvalidLink { link: "x".to_string(), role: "team id" }.message(),
        "Invalid link for team id: x"
    );
    assert_eq!(
        ParseError::InvalidDate { date: "x".to_string(), role: "match date" }.message(),
        "Invalid date for match date: x"
    );
    assert_eq!(ScrapeError::NotFound.message(), "Player or team doesn't exist");
    assert_eq!(
        ScrapeError::Parse(ParseError::InvalidDate { date: "".to_string(), role: "" }).message(),
        "Invalid date for : "
    );
    assert_eq!(InvalidGameMode { text: "x".to_string() }.message(), "Invalid game mode x");
    assert_eq!(InvalidRegion { text: "x".to_string() }.message(), "Invalid team region: x");
    assert_eq!(InvalidClass { text: "x".to_string() }.message(), "Invalid class x");
    assert_eq!(
        InvalidMembershipRole { text: "x".to_string() }.message(),
        "Invalid membership role x"
    );
    assert_eq!(MallFormedTransaction { text: "x".to_string() }.message(), "Invalid transaction x");
}

#[test]
fn vocabularies_are_read_by_parse_too() {
    assert_eq!("TF2 6vs6".parse::<GameMode>(), Ok(GameMode::Sixes));
    assert_eq!("(EU)".parse::<Region>(), Ok(Region::Europe));
    assert_eq!(" Member ".parse::<MembershipRole>(), Ok(MembershipRole::Member));
    assert_eq!(
        "seven".parse::<GameMode>(),
        Err(InvalidGameMode { text: "seven".to_string() })
    );
}
