//! The ways in which reading a page fails.

use crate::vocabulary::MallFormedTransaction;
use vstd::prelude::*;
use vstd::string::*;
use vstd::std_specs::convert::FromSpecImpl;

verus! {

/// Why a page could not be read. Each kind carries what is needed to find the place in
/// the page without having the page: the selector that was tried or the text that was
/// found, and the part of the record that it was meant for.
#[derive(Debug, Clone, PartialEq, Eq)]
pub enum ParseError {
    /// An element that the record needs is not in the page.
    ElementNotFound { selector: &'static str, role: &'static str },
    /// The element is there and holds no text.
    EmptyText { selector: &'static str, role: &'static str },
    /// Text is there and is not what its field takes.
    InvalidText { text: String, role: &'static str },
    /// A link is there and does not end in `=` and a number.
    InvalidLink { link: String, role: &'static str },
    /// Text is there and is no date in any layout that was tried.
    InvalidDate { date: String, role: &'static str },
}

/// What a `ParseError` holds, as values.
pub enum ParseErrorView {
    ElementNotFound { selector: Seq<char>, role: Seq<char> },
    EmptyText { selector: Seq<char>, role: Seq<char> },
    InvalidText { text: Seq<char>, role: Seq<char> },
    InvalidLink { link: Seq<char>, role: Seq<char> },
    InvalidDate { date: Seq<char>, role: Seq<char> },
}

impl DeepView for ParseError {
    type V = ParseErrorView;

    open spec fn deep_view(&self) -> ParseErrorView {
        match *self {
            ParseError::ElementNotFound { selector, role } => ParseErrorView::ElementNotFound {
                selector: selector@,
                role: role@,
            },
            ParseError::EmptyText { selector, role } => ParseErrorView::EmptyText {
                selector: selector@,
                role: role@,
            },
            ParseError::InvalidText { text, role } => ParseErrorView::InvalidText {
                text: text@,
                role: role@,
            },
            ParseError::InvalidLink { link, role } => ParseErrorView::InvalidLink {
                link: link@,
                role: role@,
            },
            ParseError::InvalidDate { date, role } => ParseErrorView::InvalidDate {
                date: date@,
                role: role@,
            },
        }
    }
}

/// Why no record came out of a document.
#[derive(Debug, Clone, PartialEq, Eq)]
pub enum ScrapeError {
    /// The page could not be read.
    Parse(ParseError),
    /// The page is that of no player or team. No parser finds that out: it is for those
    /// who fetch pages and are sent elsewhere.
    NotFound,
}

/// What a `ScrapeError` holds, as values.
pub enum ScrapeErrorView {
    Parse(ParseErrorView),
    NotFound,
}

impl DeepView for ScrapeError {
    type V = ScrapeErrorView;

    open spec fn deep_view(&self) -> ScrapeErrorView {
        match *self {
            ScrapeError::Parse(e) => ScrapeErrorView::Parse(e.deep_view()),
            ScrapeError::NotFound => ScrapeErrorView::NotFound,
        }
    }
}

impl From<ParseError> for ScrapeError {
    fn from(error: ParseError) -> (r: ScrapeError) {
        ScrapeError::Parse(error)
    }
}

impl FromSpecImpl<ParseError> for ScrapeError {
    open spec fn obeys_from_spec() -> bool {
        true
    }

    open spec fn from_spec(error: ParseError) -> ScrapeError {
        ScrapeError::Parse(error)
    }
}

impl From<MallFormedTransaction> for ParseError {
    fn from(transaction: MallFormedTransaction) -> (r: ParseError) {
        ParseError::InvalidText { role: "transaction", text: transaction.text }
    }
}

impl FromSpecImpl<MallFormedTransaction> for ParseError {
    open spec fn obeys_from_spec() -> bool {
        true
    }

    open spec fn from_spec(transaction: MallFormedTransaction) -> ParseError {
        ParseError::InvalidText { role: "transaction", text: transaction.text }
    }
}

impl From<MallFormedTransaction> for ScrapeError {
    fn from(transaction: MallFormedTransaction) -> (r: ScrapeError) {
        ScrapeError::Parse(ParseError::InvalidText { role: "transaction", text: transaction.text })
    }
}

impl FromSpecImpl<MallFormedTransaction> for ScrapeError {
    open spec fn obeys_from_spec() -> bool {
        true
    }

    open spec fn from_spec(transaction: MallFormedTransaction) -> ScrapeError {
        ScrapeError::Parse(ParseError::InvalidText { role: "transaction", text: transaction.text })
    }
}

/// The view of a result: the view of what it holds.
pub open spec fn result_view<T: DeepView, E: DeepView>(r: Result<T, E>) -> Result<T::V, E::V> {
    match r {
        Ok(v) => Ok(v.deep_view()),
        Err(e) => Err(e.deep_view()),
    }
}

/// What has to be there, or else the error `e`.
pub open spec fn required<T>(found: Option<T>, e: ParseErrorView) -> Result<T, ParseErrorView> {
    match found {
        Some(v) => Ok(v),
        None => Err(e),
    }
}

/// The failure of a whole document that the failure of a part of it is.
pub open spec fn whole<T>(part: Result<T, ParseErrorView>) -> Result<T, ScrapeErrorView> {
    match part {
        Ok(v) => Ok(v),
        Err(e) => Err(ScrapeErrorView::Parse(e)),
    }
}

pub open spec fn not_found(selector: Seq<char>, role: Seq<char>) -> ParseErrorView {
    ParseErrorView::ElementNotFound { selector, role }
}

pub open spec fn empty_text(selector: Seq<char>, role: Seq<char>) -> ParseErrorView {
    ParseErrorView::EmptyText { selector, role }
}

pub open spec fn invalid_text(text: Seq<char>, role: Seq<char>) -> ParseErrorView {
    ParseErrorView::InvalidText { text, role }
}

pub open spec fn invalid_link(link: Seq<char>, role: Seq<char>) -> ParseErrorView {
    ParseErrorView::InvalidLink { link, role }
}

pub open spec fn invalid_date(date: Seq<char>, role: Seq<char>) -> ParseErrorView {
    ParseErrorView::InvalidDate { date, role }
}

impl ParseError {
    /// The error for an element that is not in the page.
    pub fn element_not_found(selector: &'static str, role: &'static str) -> (r: ParseError)
        ensures
            r.deep_view() == not_found(selector@, role@),
    {
        ParseError::ElementNotFound { selector, role }
    }

    /// The error for an element without text.
    pub fn no_text(selector: &'static str, role: &'static str) -> (r: ParseError)
        ensures
            r.deep_view() == empty_text(selector@, role@),
    {
        ParseError::EmptyText { selector, role }
    }

    /// The error for text that its field does not take.
    pub fn bad_text(text: &str, role: &'static str) -> (r: ParseError)
        ensures
            r.deep_view() == invalid_text(text@, role@),
    {
        ParseError::InvalidText { text: text.to_owned(), role }
    }

    /// The error for a link that does not end in a number.
    pub fn bad_link(link: &str, role: &'static str) -> (r: ParseError)
        ensures
            r.deep_view() == invalid_link(link@, role@),
    {
        ParseError::InvalidLink { link: link.to_owned(), role }
    }

    /// The error for text that is no date.
    pub fn bad_date(date: &str, role: &'static str) -> (r: ParseError)
        ensures
            r.deep_view() == invalid_date(date@, role@),
    {
        ParseError::InvalidDate { date: date.to_owned(), role }
    }
}

impl ParseErrorView {
    /// The error in words.
    pub open spec fn message(self) -> Seq<char> {
        match self {
            ParseErrorView::ElementNotFound { selector, role } => "Couldn't find expected element '"@
                + selector + "' for "@ + role,
            ParseErrorView::EmptyText { selector, role } => "Element '"@ + selector
                + "' doesn't contain text for "@ + role,
            ParseErrorView::InvalidText { text, role } => "Invalid text for "@ + role + ": "@ + text,
            ParseErrorView::InvalidLink { link, role } => "Invalid link for "@ + role + ": "@ + link,
            ParseErrorView::InvalidDate { date, role } => "Invalid date for "@ + role + ": "@ + date,
        }
    }
}

impl ScrapeErrorView {
    /// The error in words.
    pub open spec fn message(self) -> Seq<char> {
        match self {
            ScrapeErrorView::Parse(e) => e.message(),
            ScrapeErrorView::NotFound => "Player or team doesn't exist"@,
        }
    }
}

/// `a`, `b`, `c` and `d` in a row.
fn joined(a: &str, b: &str, c: &str, d: &str) -> (r: String)
    ensures
        r@ == a@ + b@ + c@ + d@,
{
    let mut out = a.to_owned();
    out.append(b);
    out.append(c);
    out.append(d);
    out
}

impl ParseError {
    /// The error in words, for those who read logs.
    pub fn message(&self) -> (r: String)
        ensures
            r@ == self.deep_view().message(),
    {
        match self {
            ParseError::ElementNotFound { selector, role } => joined(
                "Couldn't find expected element '",
                selector,
                "' for ",
                role,
            ),
            ParseError::EmptyText { selector, role } => joined(
                "Element '",
                selector,
                "' doesn't contain text for ",
                role,
            ),
            ParseError::InvalidText { text, role } => joined(
                "Invalid text for ",
                role,
                ": ",
                text.as_str(),
            ),
            ParseError::InvalidLink { link, role } => joined(
                "Invalid link for ",
                role,
                ": ",
                link.as_str(),
            ),
            ParseError::InvalidDate { date, role } => joined(
                "Invalid date for ",
                role,
                ": ",
                date.as_str(),
            ),
        }
    }
}

impl ScrapeError {
    /// The error in words, for those who read logs.
    pub fn message(&self) -> (r: String)
        ensures
            r@ == self.deep_view().message(),
    {
        match self {
            ScrapeError::Parse(e) => e.message(),
            ScrapeError::NotFound => "Player or team doesn't exist".to_owned(),
        }
    }
}

} // verus!
