//! Access to a parsed page.
//!
//! The page is parsed, and its elements are found, by the `scraper` crate. Nothing here
//! looks into its tree: what `scraper` hands out has a name, and the functions of this
//! module say what they return in terms of those names.

use crate::text::{is_blank, trim, trimmed};
use vstd::prelude::*;
use vstd::string::*;

verus! {

/// `scraper::Html`, the tree of a parsed page, as a value that is carried around and
/// not looked into.
#[verifier::external_type_specification]
#[verifier::external_body]
pub struct ExHtml(scraper::Html);

/// `scraper::ElementRef`, an element of such a tree, as a value that is carried around
/// and not looked into.
#[verifier::external_type_specification]
#[verifier::external_body]
pub struct ExElementRef<'a>(scraper::ElementRef<'a>);

/// `scraper::Selector`, a compiled selector, as a value that is carried around and not
/// looked into.
#[verifier::external_type_specification]
#[verifier::external_body]
pub struct ExSelector(scraper::Selector);

/// The tree that `scraper::Html::parse_document` makes of a text.
pub uninterp spec fn parsed_html(text: Seq<char>) -> scraper::Html;

/// What `scraper::Selector::parse` makes of a text: nothing where it is no selector.
pub uninterp spec fn compiled_selector(text: Seq<char>) -> Option<scraper::Selector>;

/// What `scraper::Html::root_element` gives: the `html` element of a tree.
pub uninterp spec fn html_root(html: scraper::Html) -> scraper::ElementRef<'static>;

/// The elements that `scraper::Html::select` yields, in its order.
pub uninterp spec fn html_matches(html: scraper::Html, selector: scraper::Selector) -> Seq<
    scraper::ElementRef<'static>,
>;

/// The elements that `scraper::ElementRef::select` yields, in its order: those below the
/// element that match the selector.
pub uninterp spec fn element_matches(el: scraper::ElementRef, selector: scraper::Selector) -> Seq<
    scraper::ElementRef<'static>,
>;

/// The texts that `scraper::ElementRef::text` yields, in its order: those of the text nodes
/// below the element.
pub uninterp spec fn element_texts(el: scraper::ElementRef) -> Seq<Seq<char>>;

/// What `scraper::ElementRef::attr` gives: the value of an attribute of the element.
pub uninterp spec fn element_attr(el: scraper::ElementRef, name: Seq<char>) -> Option<Seq<char>>;

/// The number of items that `scraper::ElementRef::child_elements` yields: the children of
/// the element that are elements.
pub uninterp spec fn element_child_count(el: scraper::ElementRef) -> nat;

/// Calls `scraper::Html::parse_document`, which takes any text. The contract gives the
/// tree a name and claims nothing more of it.
#[verifier::external_body]
fn parse_html(text: &str) -> (r: scraper::Html)
    ensures
        r == parsed_html(text@),
{
    scraper::Html::parse_document(text)
}

/// Calls `scraper::Selector::parse` and drops what it says of a text that is no selector.
/// The contract gives the result a name and claims nothing more of it.
#[verifier::external_body]
fn compile_selector(text: &str) -> (r: Option<scraper::Selector>)
    ensures
        r == compiled_selector(text@),
{
    scraper::Selector::parse(text).ok()
}

/// Calls `scraper::Html::root_element`. It panics on a tree without an element at its
/// top; the tree of a parsed document has one, so only such a tree is taken.
#[verifier::external_body]
fn root_element<'a>(html: &'a scraper::Html) -> (r: scraper::ElementRef<'a>)
    requires
        exists|text: Seq<char>| *html == parsed_html(text),
    ensures
        r == html_root(*html),
{
    html.root_element()
}

/// Calls `scraper::Html::select` and collects what it yields, in its order.
#[verifier::external_body]
fn select_in_html<'a>(html: &'a scraper::Html, selector: &scraper::Selector) -> (r: Vec<
    scraper::ElementRef<'a>,
>)
    ensures
        r@ == html_matches(*html, *selector),
{
    html.select(selector).collect()
}

/// Calls `scraper::ElementRef::select` and collects what it yields, in its order.
#[verifier::external_body]
fn select_in_element<'a>(el: scraper::ElementRef<'a>, selector: &scraper::Selector) -> (r: Vec<
    scraper::ElementRef<'a>,
>)
    ensures
        r@ == element_matches(el, *selector),
{
    el.select(selector).collect()
}

/// Calls `scraper::ElementRef::text` and collects what it yields, in its order.
#[verifier::external_body]
fn texts_of<'a>(el: scraper::ElementRef<'a>) -> (r: Vec<&'a str>)
    ensures
        r.deep_view() == element_texts(el),
{
    el.text().collect()
}

/// Calls `scraper::ElementRef::attr`.
#[verifier::external_body]
fn attr_of<'a>(el: scraper::ElementRef<'a>, name: &str) -> (r: Option<&'a str>)
    ensures
        r.deep_view() == element_attr(el, name@),
{
    el.attr(name)
}

/// Calls `scraper::ElementRef::child_elements` and counts what it yields.
#[verifier::external_body]
fn count_child_elements(el: scraper::ElementRef) -> (r: usize)
    ensures
        r == element_child_count(el),
{
    el.child_elements().count()
}

/// The elements below `el` that match the selector that `selector` spells, in the order
/// in which they are yielded.
pub open spec fn matches_under(el: scraper::ElementRef, selector: Seq<char>) -> Seq<
    scraper::ElementRef<'static>,
> {
    element_matches(el, compiled_selector(selector)->0)
}

/// The elements of the page `document` that match the selector that `selector` spells.
pub open spec fn matches_in(document: Seq<char>, selector: Seq<char>) -> Seq<
    scraper::ElementRef<'static>,
> {
    html_matches(parsed_html(document), compiled_selector(selector)->0)
}

/// The `html` element of the page `document`.
pub open spec fn root_of(document: Seq<char>) -> scraper::ElementRef<'static> {
    html_root(parsed_html(document))
}

/// The first of `texts` that is not blank, without the white space at its ends.
pub open spec fn first_text(texts: Seq<Seq<char>>) -> Option<Seq<char>>
    decreases texts.len(),
{
    if texts.len() == 0 {
        None
    } else if !is_blank(texts[0]) {
        Some(trimmed(texts[0]))
    } else {
        first_text(texts.skip(1))
    }
}

/// The last of `texts`, without the white space at its ends.
pub open spec fn last_text(texts: Seq<Seq<char>>) -> Option<Seq<char>> {
    if texts.len() == 0 {
        None
    } else {
        Some(trimmed(texts.last()))
    }
}

/// Those of `texts` that are not blank, each without the white space at its ends.
pub open spec fn trimmed_texts(texts: Seq<Seq<char>>) -> Seq<Seq<char>>
    decreases texts.len(),
{
    if texts.len() == 0 {
        Seq::empty()
    } else if is_blank(texts.last()) {
        trimmed_texts(texts.drop_last())
    } else {
        trimmed_texts(texts.drop_last()).push(trimmed(texts.last()))
    }
}

/// The first text below `el` that is not blank.
pub open spec fn text_of(el: scraper::ElementRef) -> Option<Seq<char>> {
    first_text(element_texts(el))
}

/// The first match of `selector` below `el`.
pub open spec fn first_under(el: scraper::ElementRef, selector: Seq<char>) -> Option<
    scraper::ElementRef<'static>,
> {
    if matches_under(el, selector).len() == 0 {
        None
    } else {
        Some(matches_under(el, selector)[0])
    }
}

/// The first match of `selector` in the page `document`.
pub open spec fn first_in(document: Seq<char>, selector: Seq<char>) -> Option<
    scraper::ElementRef<'static>,
> {
    if matches_in(document, selector).len() == 0 {
        None
    } else {
        Some(matches_in(document, selector)[0])
    }
}

/// The first text that is not blank below the first match of `selector` below `el`:
/// nothing where nothing matches or the match holds only blank text.
pub open spec fn selected_text(el: scraper::ElementRef, selector: Seq<char>) -> Option<Seq<char>> {
    match first_under(el, selector) {
        Some(found) => text_of(found),
        None => None,
    }
}

/// As `selected_text`, but a match that holds only blank text gives the empty text: so
/// "no such element" and "an element without text" are told apart.
pub open spec fn selected_text_or_empty(el: scraper::ElementRef, selector: Seq<char>) -> Option<
    Seq<char>,
> {
    match first_under(el, selector) {
        Some(found) => match text_of(found) {
            Some(text) => Some(text),
            None => Some(Seq::empty()),
        },
        None => None,
    }
}

/// The last text below the first match of `selector` below `el`, blank or not.
pub open spec fn selected_last_text(el: scraper::ElementRef, selector: Seq<char>) -> Option<
    Seq<char>,
> {
    match first_under(el, selector) {
        Some(found) => last_text(element_texts(found)),
        None => None,
    }
}

/// The first of `texts` that is not blank, trimmed.
pub fn first_text_in<'a>(texts: &Vec<&'a str>) -> (r: Option<&'a str>)
    ensures
        r.deep_view() == first_text(texts.deep_view()),
{
    let ghost all = texts.deep_view();
    let mut i: usize = 0;
    assert(all.skip(0) =~= all);
    while i < texts.len()
        invariant
            i <= texts.len(),
            all == texts.deep_view(),
            first_text(all) == first_text(all.skip(i as int)),
        decreases texts.len() - i,
    {
        let t = trim(texts[i]);
        assert(all.skip(i as int)[0] == texts@[i as int]@);
        assert(all.skip(i as int).skip(1) =~= all.skip(i + 1));
        if !t.is_empty() {
            return Some(t);
        }
        i += 1;
    }
    None
}

/// The first text below `el` that is not blank, trimmed.
pub fn first_text_of<'a>(el: scraper::ElementRef<'a>) -> (r: Option<&'a str>)
    ensures
        r.deep_view() == text_of(el),
{
    let texts = texts_of(el);
    first_text_in(&texts)
}

/// The last text below `el`, trimmed.
pub fn last_text_of<'a>(el: scraper::ElementRef<'a>) -> (r: Option<&'a str>)
    ensures
        r.deep_view() == last_text(element_texts(el)),
{
    let texts = texts_of(el);
    if texts.len() == 0 {
        None
    } else {
        assert(texts.deep_view().last() == texts@[texts.len() - 1]@);
        Some(trim(texts[texts.len() - 1]))
    }
}

/// The texts below `el` that are not blank, trimmed.
pub fn trimmed_texts_of(el: scraper::ElementRef) -> (r: Vec<String>)
    ensures
        r.deep_view() == trimmed_texts(element_texts(el)),
{
    let texts = texts_of(el);
    let ghost all = texts.deep_view();
    let mut out: Vec<String> = Vec::new();
    let mut i: usize = 0;
    assert(all.take(0) =~= Seq::<Seq<char>>::empty());
    assert(out.deep_view() =~= Seq::<Seq<char>>::empty());
    while i < texts.len()
        invariant
            i <= texts.len(),
            all == texts.deep_view(),
            out.deep_view() == trimmed_texts(all.take(i as int)),
        decreases texts.len() - i,
    {
        let t = trim(texts[i]);
        assert(all.take(i + 1).drop_last() =~= all.take(i as int));
        assert(all.take(i + 1).last() == texts@[i as int]@);
        if !t.is_empty() {
            let ghost before = out.deep_view();
            out.push(t.to_owned());
            assert(out.deep_view() =~= before.push(t@));
        }
        i += 1;
    }
    assert(all.take(i as int) =~= all);
    out
}

/// The text and the address of a link: its first text that is not blank, and the value of
/// its attribute `href`, or the empty text where it has none.
pub open spec fn link_of(el: scraper::ElementRef) -> (Option<Seq<char>>, Seq<char>) {
    (text_of(el), attr_or_empty(el, "href"@))
}

/// The first text of each of `els`.
pub open spec fn texts_of_all(els: Seq<scraper::ElementRef>) -> Seq<Option<Seq<char>>> {
    els.map_values(|el: scraper::ElementRef| text_of(el))
}

/// The text and the address of each of `els`.
pub open spec fn links_of_all(els: Seq<scraper::ElementRef>) -> Seq<
    (Option<Seq<char>>, Seq<char>),
> {
    els.map_values(|el: scraper::ElementRef| link_of(el))
}

/// The first text of each of `els`.
pub fn first_texts<'a>(els: &Vec<scraper::ElementRef<'a>>) -> (r: Vec<Option<&'a str>>)
    ensures
        r.deep_view() == texts_of_all(els@),
{
    let mut out: Vec<Option<&'a str>> = Vec::new();
    let mut i: usize = 0;
    while i < els.len()
        invariant
            i <= els.len(),
            out.len() == i,
            forall|j: int| 0 <= j < i ==> (#[trigger] out@[j]).deep_view() == text_of(els@[j]),
        decreases els.len() - i,
    {
        out.push(first_text_of(els[i]));
        i += 1;
    }
    assert(out.deep_view() =~= texts_of_all(els@));
    out
}

/// The text and the address of each of `els`.
pub fn links<'a>(els: &Vec<scraper::ElementRef<'a>>) -> (r: Vec<(Option<&'a str>, &'a str)>)
    ensures
        r.deep_view() == links_of_all(els@),
{
    let mut out: Vec<(Option<&'a str>, &'a str)> = Vec::new();
    let mut i: usize = 0;
    while i < els.len()
        invariant
            i <= els.len(),
            out.len() == i,
            forall|j: int| 0 <= j < i ==> (#[trigger] out@[j]).deep_view() == link_of(els@[j]),
        decreases els.len() - i,
    {
        out.push((first_text_of(els[i]), attr_or_default(els[i], "href")));
        i += 1;
    }
    assert(out.deep_view() =~= links_of_all(els@));
    out
}

/// All the texts below `el`, as they stand in the page.
pub fn texts<'a>(el: scraper::ElementRef<'a>) -> (r: Vec<&'a str>)
    ensures
        r.deep_view() == element_texts(el),
{
    texts_of(el)
}

/// The value of the attribute `name` of `el`.
pub fn attr<'a>(el: scraper::ElementRef<'a>, name: &str) -> (r: Option<&'a str>)
    ensures
        r.deep_view() == element_attr(el, name@),
{
    attr_of(el, name)
}

/// The value of the attribute `name` of `el`, and the empty text where it has none.
pub open spec fn attr_or_empty(el: scraper::ElementRef, name: Seq<char>) -> Seq<char> {
    match element_attr(el, name) {
        Some(value) => value,
        None => Seq::empty(),
    }
}

/// The value of the attribute `name` of `el`, and the empty text where it has none.
pub fn attr_or_default<'a>(el: scraper::ElementRef<'a>, name: &str) -> (r: &'a str)
    ensures
        r@ == attr_or_empty(el, name@),
{
    match attr_of(el, name) {
        Some(value) => value,
        None => {
            proof {
                reveal_strlit("");
                assert(""@ =~= Seq::<char>::empty());
            }
            ""
        },
    }
}

/// The number of children of `el` that are elements.
pub fn child_element_count(el: scraper::ElementRef) -> (r: usize)
    ensures
        r == element_child_count(el),
{
    count_child_elements(el)
}

/// A selector, ready to be matched against a page, together with its text.
pub struct Query {
    text: &'static str,
    selector: scraper::Selector,
}

impl View for Query {
    type V = Seq<char>;

    /// The text of the selector.
    closed spec fn view(&self) -> Seq<char> {
        self.text@
    }
}

impl Query {
    #[verifier::type_invariant]
    spec fn compiled(self) -> bool {
        compiled_selector(self.text@) == Some(self.selector)
    }

    /// Whether a text spells a selector.
    pub open spec fn is_selector(text: Seq<char>) -> bool {
        compiled_selector(text) is Some
    }

    /// Makes a selector ready for matching; nothing where the text spells none.
    pub fn compile(text: &'static str) -> (r: Option<Query>)
        ensures
            r is Some <==> Query::is_selector(text@),
            r matches Some(query) ==> query@ == text@,
    {
        match compile_selector(text) {
            Some(selector) => Some(Query { text, selector }),
            None => None,
        }
    }

    /// The text of the selector.
    pub fn text(&self) -> (r: &'static str)
        ensures
            r@ == self@,
    {
        self.text
    }

    /// The elements below `el` that match, in the order in which they are yielded.
    pub fn select<'a>(&self, el: scraper::ElementRef<'a>) -> (r: Vec<scraper::ElementRef<'a>>)
        ensures
            r@ == matches_under(el, self@),
    {
        proof {
            use_type_invariant(self);
        }
        select_in_element(el, &self.selector)
    }

    /// The first element below `el` that matches.
    pub fn first<'a>(&self, el: scraper::ElementRef<'a>) -> (r: Option<scraper::ElementRef<'a>>)
        ensures
            r == first_under(el, self@),
    {
        let found = self.select(el);
        if found.len() == 0 {
            None
        } else {
            Some(found[0])
        }
    }

    /// The first text that is not blank below the first match below `el`, trimmed.
    pub fn select_text<'a>(&self, el: scraper::ElementRef<'a>) -> (r: Option<&'a str>)
        ensures
            r.deep_view() == selected_text(el, self@),
    {
        match self.first(el) {
            Some(found) => first_text_of(found),
            None => None,
        }
    }

    /// As `select_text`, but a match that holds only blank text gives the empty text.
    pub fn select_text_empty<'a>(&self, el: scraper::ElementRef<'a>) -> (r: Option<&'a str>)
        ensures
            r.deep_view() == selected_text_or_empty(el, self@),
    {
        match self.first(el) {
            Some(found) => match first_text_of(found) {
                Some(text) => Some(text),
                None => {
                    proof {
                        reveal_strlit("");
                        assert(""@ =~= Seq::<char>::empty());
                    }
                    Some("")
                },
            },
            None => None,
        }
    }

    /// The last text below the first match below `el`, trimmed.
    pub fn select_last_text<'a>(&self, el: scraper::ElementRef<'a>) -> (r: Option<&'a str>)
        ensures
            r.deep_view() == selected_last_text(el, self@),
    {
        match self.first(el) {
            Some(found) => last_text_of(found),
            None => None,
        }
    }
}

/// Those of `rows` below which `selector` matches something, in their order.
pub open spec fn having(rows: Seq<scraper::ElementRef<'static>>, selector: Seq<char>) -> Seq<
    scraper::ElementRef<'static>,
>
    decreases rows.len(),
{
    if rows.len() == 0 {
        Seq::empty()
    } else if first_under(rows.last(), selector) is None {
        having(rows.drop_last(), selector)
    } else {
        having(rows.drop_last(), selector).push(rows.last())
    }
}

/// Below each of the rows that are kept, the selector matches something.
pub proof fn lemma_having(rows: Seq<scraper::ElementRef<'static>>, selector: Seq<char>, i: int)
    requires
        0 <= i < having(rows, selector).len(),
    ensures
        first_under(having(rows, selector)[i], selector) is Some,
    decreases rows.len(),
{
    if rows.len() > 0 {
        if first_under(rows.last(), selector) is None {
            lemma_having(rows.drop_last(), selector, i);
        } else if i < having(rows.drop_last(), selector).len() {
            lemma_having(rows.drop_last(), selector, i);
        }
    }
}

impl Query {
    /// Those of `rows` below which this selector matches something, in their order.
    pub fn keep<'a>(&self, rows: &Vec<scraper::ElementRef<'a>>) -> (r: Vec<
        scraper::ElementRef<'a>,
    >)
        ensures
            r@ == having(rows@, self@),
    {
        let mut kept: Vec<scraper::ElementRef<'a>> = Vec::new();
        let mut k: usize = 0;
        assert(rows@.take(0) =~= Seq::empty());
        while k < rows.len()
            invariant
                k <= rows.len(),
                kept@ == having(rows@.take(k as int), self@),
            decreases rows.len() - k,
        {
            assert(rows@.take(k + 1).drop_last() =~= rows@.take(k as int));
            match self.first(rows[k]) {
                Some(_) => {
                    kept.push(rows[k]);
                },
                None => {},
            }
            k += 1;
        }
        assert(rows@.take(k as int) =~= rows@);
        kept
    }
}

/// A parsed page.
pub struct Document {
    html: scraper::Html,
    source: Ghost<Seq<char>>,
}

impl View for Document {
    type V = Seq<char>;

    /// The text that the page was parsed from.
    closed spec fn view(&self) -> Seq<char> {
        self.source@
    }
}

impl Document {
    #[verifier::type_invariant]
    spec fn parsed(self) -> bool {
        self.html == parsed_html(self.source@)
    }

    /// Parses a page. Any text is one: what is not well formed is mended as a browser
    /// would mend it.
    pub fn parse(text: &str) -> (r: Document)
        ensures
            r@ == text@,
    {
        Document { html: parse_html(text), source: Ghost(text@) }
    }

    /// The `html` element of the page.
    pub fn root(&self) -> (r: scraper::ElementRef<'_>)
        ensures
            r == root_of(self@),
    {
        proof {
            use_type_invariant(self);
        }
        root_element(&self.html)
    }

    /// The elements of the page that match `query`.
    pub fn select(&self, query: &Query) -> (r: Vec<scraper::ElementRef<'_>>)
        ensures
            r@ == matches_in(self@, query@),
    {
        proof {
            use_type_invariant(self);
            use_type_invariant(query);
        }
        select_in_html(&self.html, &query.selector)
    }

    /// The first element of the page that matches `query`.
    pub fn first(&self, query: &Query) -> (r: Option<scraper::ElementRef<'_>>)
        ensures
            r == first_in(self@, query@),
    {
        let found = self.select(query);
        if found.len() == 0 {
            None
        } else {
            Some(found[0])
        }
    }
}

} // verus!
