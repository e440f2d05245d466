//! Calendar dates, and reading them out of text in the layouts that the site has used.
//!
//! The layouts are matched by the `time` crate. What it finds comes back as plain numbers
//! and is checked against the calendar here.

use crate::error::{ParseError, ParseErrorView};
use crate::number::{push_signed_decimal, signed_decimal};
use vstd::prelude::*;
use vstd::string::*;

verus! {

/// Whether `year` has a 29th of February.
pub open spec fn is_leap_year(year: int) -> bool {
    year % 4 == 0 && (year % 100 != 0 || year % 400 == 0)
}

/// The number of days of a month, and 0 for a month that the calendar does not have.
pub open spec fn days_in_month(year: int, month: int) -> int {
    if month == 4 || month == 6 || month == 9 || month == 11 {
        30
    } else if month == 2 {
        if is_leap_year(year) {
            29
        } else {
            28
        }
    } else if 1 <= month <= 12 {
        31
    } else {
        0
    }
}

/// Whether the calendar has this day, in the years from -9999 to 9999.
pub open spec fn is_calendar_date(year: int, month: int, day: int) -> bool {
    -9999 <= year <= 9999 && 1 <= month <= 12 && 1 <= day <= days_in_month(year, month)
}

/// A day of the calendar.
#[derive(Debug, Clone, Copy, PartialEq, Eq, Hash)]
pub struct Date {
    year: i32,
    month: u8,
    day: u8,
}

/// What a `Date` holds.
pub struct DateView {
    pub year: int,
    pub month: int,
    pub day: int,
}

impl DeepView for Date {
    type V = DateView;

    closed spec fn deep_view(&self) -> DateView {
        DateView { year: self.year as int, month: self.month as int, day: self.day as int }
    }
}

/// The date of these numbers, where the calendar has it.
pub open spec fn calendar_date(year: int, month: int, day: int) -> Option<DateView> {
    if is_calendar_date(year, month, day) {
        Some(DateView { year, month, day })
    } else {
        None
    }
}

impl Date {
    #[verifier::type_invariant]
    spec fn on_calendar(self) -> bool {
        is_calendar_date(self.year as int, self.month as int, self.day as int)
    }

    /// The date of these numbers, where the calendar has it.
    pub fn from_calendar_date(year: i32, month: u8, day: u8) -> (r: Option<Date>)
        ensures
            r.deep_view() == calendar_date(year as int, month as int, day as int),
    {
        if year < -9999 || year > 9999 || month < 1 || month > 12 || day < 1 {
            return None;
        }
        let shifted: u32 = (year + 10000) as u32;
        let leap = shifted % 4 == 0 && (shifted % 100 != 0 || shifted % 400 == 0);
        assert(leap == is_leap_year(year as int)) by {
            assert((year + 10000) % 4 == year % 4);
            assert((year + 10000) % 100 == year % 100);
            assert((year + 10000) % 400 == year % 400);
        }
        let last: u8 = if month == 4 || month == 6 || month == 9 || month == 11 {
            30
        } else if month == 2 {
            if leap {
                29
            } else {
                28
            }
        } else {
            31
        };
        if day > last {
            return None;
        }
        Some(Date { year, month, day })
    }

    pub fn year(&self) -> (r: i32)
        ensures
            r == self.deep_view().year,
    {
        self.year
    }

    /// The month, from 1 for January to 12.
    pub fn month(&self) -> (r: u8)
        ensures
            r == self.deep_view().month,
    {
        self.month
    }

    /// The day of the month, which the calendar has.
    pub fn day(&self) -> (r: u8)
        ensures
            r == self.deep_view().day,
            is_calendar_date(self.deep_view().year, self.deep_view().month, r as int),
    {
        proof {
            use_type_invariant(self);
        }
        self.day
    }
}

impl DateView {
    /// A number that grows with the days: year, month and day as the digits of one number.
    pub open spec fn key(self) -> int {
        (self.year * 100 + self.month) * 100 + self.day
    }

    /// Whether this day is `other` or a day before it.
    pub open spec fn on_or_before(self, other: DateView) -> bool {
        self.year < other.year || (self.year == other.year && (self.month < other.month || (
        self.month == other.month && self.day <= other.day)))
    }
}

/// Of two days of the calendar, the earlier has the smaller key.
pub proof fn lemma_key_follows_calendar(a: DateView, b: DateView)
    requires
        is_calendar_date(a.year, a.month, a.day),
        is_calendar_date(b.year, b.month, b.day),
    ensures
        a.key() <= b.key() <==> a.on_or_before(b),
        a.key() == b.key() <==> a == b,
{
}

impl Date {
    /// Whether this day is `other` or a day before it.
    pub fn on_or_before(&self, other: &Date) -> (r: bool)
        ensures
            r == self.deep_view().on_or_before(other.deep_view()),
            r == (self.deep_view().key() <= other.deep_view().key()),
    {
        proof {
            use_type_invariant(self);
            use_type_invariant(other);
            lemma_key_follows_calendar(self.deep_view(), other.deep_view());
        }
        self.year < other.year || (self.year == other.year && (self.month < other.month || (
        self.month == other.month && self.day <= other.day)))
    }
}

/// A moment: a day, a time of day, and the hours by which its clock is ahead of UTC.
#[derive(Debug, Clone, Copy, PartialEq, Eq, Hash)]
pub struct Timestamp {
    date: Date,
    hour: u8,
    minute: u8,
    second: u8,
    offset_hours: i8,
}

/// What a `Timestamp` holds.
pub struct TimestampView {
    pub date: DateView,
    pub hour: int,
    pub minute: int,
    pub second: int,
    pub offset_hours: int,
}

impl DeepView for Timestamp {
    type V = TimestampView;

    closed spec fn deep_view(&self) -> TimestampView {
        TimestampView {
            date: self.date.deep_view(),
            hour: self.hour as int,
            minute: self.minute as int,
            second: self.second as int,
            offset_hours: self.offset_hours as int,
        }
    }
}

/// Whether a day has this time, and a clock can be this far from UTC.
pub open spec fn is_time_of_day(hour: int, minute: int, second: int, offset_hours: int) -> bool {
    0 <= hour < 24 && 0 <= minute < 60 && 0 <= second < 60 && -25 <= offset_hours <= 25
}

/// The moment of these numbers, where there is one.
pub open spec fn moment(
    date: DateView,
    hour: int,
    minute: int,
    second: int,
    offset_hours: int,
) -> Option<TimestampView> {
    if is_time_of_day(hour, minute, second, offset_hours) {
        Some(TimestampView { date, hour, minute, second, offset_hours })
    } else {
        None
    }
}

impl Timestamp {
    #[verifier::type_invariant]
    spec fn on_clock(self) -> bool {
        is_time_of_day(
            self.hour as int,
            self.minute as int,
            self.second as int,
            self.offset_hours as int,
        )
    }

    /// The moment of these numbers, where there is one.
    pub fn new(date: Date, hour: u8, minute: u8, second: u8, offset_hours: i8) -> (r: Option<
        Timestamp,
    >)
        ensures
            r.deep_view() == moment(
                date.deep_view(),
                hour as int,
                minute as int,
                second as int,
                offset_hours as int,
            ),
    {
        if hour < 24 && minute < 60 && second < 60 && -25 <= offset_hours && offset_hours <= 25 {
            Some(Timestamp { date, hour, minute, second, offset_hours })
        } else {
            None
        }
    }

    /// The first moment of a day, on a clock that shows UTC.
    pub fn midnight_utc(date: Date) -> (r: Timestamp)
        ensures
            r.deep_view() == (TimestampView {
                date: date.deep_view(),
                hour: 0,
                minute: 0,
                second: 0,
                offset_hours: 0,
            }),
    {
        Timestamp { date, hour: 0, minute: 0, second: 0, offset_hours: 0 }
    }

    pub fn date(&self) -> (r: Date)
        ensures
            r.deep_view() == self.deep_view().date,
    {
        self.date
    }

    pub fn hour(&self) -> (r: u8)
        ensures
            r == self.deep_view().hour,
    {
        self.hour
    }

    pub fn minute(&self) -> (r: u8)
        ensures
            r == self.deep_view().minute,
    {
        self.minute
    }

    pub fn second(&self) -> (r: u8)
        ensures
            r == self.deep_view().second,
    {
        self.second
    }

    /// The hours by which the clock is ahead of UTC.
    pub fn offset_hours(&self) -> (r: i8)
        ensures
            r == self.deep_view().offset_hours,
    {
        self.offset_hours
    }
}

/// `time::format_description::OwnedFormatItem`, a layout ready for matching, as a value
/// that is carried around and not looked into.
#[verifier::external_type_specification]
#[verifier::external_body]
pub struct ExOwnedFormatItem(time::format_description::OwnedFormatItem);

/// What `time::format_description::parse_owned` makes of the description of a layout, in
/// the first version of the syntax of descriptions.
pub uninterp spec fn compiled_layout(layout: Seq<char>) -> Option<
    time::format_description::OwnedFormatItem,
>;

/// The year, month and day that `time::Date::parse` reads out of a text in a layout.
pub uninterp spec fn layout_date(
    text: Seq<char>,
    items: time::format_description::OwnedFormatItem,
) -> Option<(i32, u8, u8)>;

/// The year, month, day, hour, minute and second that `time::PlainDateTime::parse` reads
/// out of a text in a layout.
pub uninterp spec fn layout_date_time(
    text: Seq<char>,
    items: time::format_description::OwnedFormatItem,
) -> Option<(i32, u8, u8, u8, u8, u8)>;

/// The month, the day and the two digits of the year that `time::parsing::Parsed::parse_item`
/// reads at the start of a text in a layout.
pub uninterp spec fn layout_short_year_date(
    text: Seq<char>,
    items: time::format_description::OwnedFormatItem,
) -> Option<(u8, u8, u8)>;

/// Calls `time::format_description::parse_owned`, in the first version of the syntax. The
/// contract gives what comes back a name and claims nothing more of it.
#[verifier::external_body]
fn compile_layout(layout: &str) -> (r: Option<time::format_description::OwnedFormatItem>)
    ensures
        r == compiled_layout(layout@),
{
    time::format_description::parse_owned::<1>(layout).ok()
}

/// Calls `time::Date::parse` and hands out the year, month and day of the date that it
/// read. The contract gives them a name and claims nothing more of them.
#[verifier::external_body]
fn read_date(text: &str, items: &time::format_description::OwnedFormatItem) -> (r: Option<
    (i32, u8, u8),
>)
    ensures
        r == layout_date(text@, *items),
{
    time::Date::parse(text, items).ok().map(|d| (d.year(), u8::from(d.month()), d.day()))
}

/// Calls `time::PlainDateTime::parse` and hands out the numbers of the moment that it
/// read. The contract gives them a name and claims nothing more of them.
#[verifier::external_body]
fn read_date_time(text: &str, items: &time::format_description::OwnedFormatItem) -> (r: Option<
    (i32, u8, u8, u8, u8, u8),
>)
    ensures
        r == layout_date_time(text@, *items),
{
    time::PlainDateTime::parse(text, items).ok().map(
        |t| (t.year(), u8::from(t.month()), t.day(), t.hour(), t.minute(), t.second()),
    )
}

/// Calls `time::parsing::Parsed::parse_item` on an empty `Parsed` and hands out the month,
/// the day and the last two digits of the year that it then holds; nothing where the text
/// does not begin in the layout or one of the three was not read. The contract gives them
/// a name and claims nothing more of them.
#[verifier::external_body]
fn read_short_year_date(text: &str, items: &time::format_description::OwnedFormatItem) -> (r:
    Option<(u8, u8, u8)>)
    ensures
        r == layout_short_year_date(text@, *items),
{
    let mut parsed = time::parsing::Parsed::new();
    parsed.parse_item(text.as_bytes(), items).ok()?;
    Some((u8::from(parsed.month()?), parsed.day()?.get(), parsed.year_last_two()?))
}

/// The date that a text shows in a layout, where the layout is one and the calendar has
/// the date.
pub open spec fn date_in_layout(text: Seq<char>, layout: Seq<char>) -> Option<DateView> {
    match compiled_layout(layout) {
        Some(items) => match layout_date(text, items) {
            Some((year, month, day)) => calendar_date(year as int, month as int, day as int),
            None => None,
        },
        None => None,
    }
}

/// The date and time of day that a text shows in a layout, as read on a clock that is
/// `offset_hours` ahead of UTC.
pub open spec fn moment_in_layout(text: Seq<char>, layout: Seq<char>, offset_hours: int) -> Option<
    TimestampView,
> {
    match compiled_layout(layout) {
        Some(items) => match layout_date_time(text, items) {
            Some((year, month, day, hour, minute, second)) => match calendar_date(
                year as int,
                month as int,
                day as int,
            ) {
                Some(date) => moment(date, hour as int, minute as int, second as int, offset_hours),
                None => None,
            },
            None => None,
        },
        None => None,
    }
}

/// The date that a text begins with in a layout whose year has two digits: the year is
/// taken to be in the century that began in 2000.
pub open spec fn short_year_date_in_layout(text: Seq<char>, layout: Seq<char>) -> Option<
    DateView,
> {
    match compiled_layout(layout) {
        Some(items) => match layout_short_year_date(text, items) {
            Some((month, day, year)) => calendar_date(2000 + year, month as int, day as int),
            None => None,
        },
        None => None,
    }
}

/// A layout of dates, ready to be matched against text.
pub struct DateFormat {
    layout: &'static str,
    items: time::format_description::OwnedFormatItem,
}

impl View for DateFormat {
    type V = Seq<char>;

    /// The description of the layout.
    closed spec fn view(&self) -> Seq<char> {
        self.layout@
    }
}

impl DateFormat {
    #[verifier::type_invariant]
    spec fn compiled(self) -> bool {
        compiled_layout(self.layout@) == Some(self.items)
    }

    /// Whether a description describes a layout.
    pub open spec fn is_layout(layout: Seq<char>) -> bool {
        compiled_layout(layout) is Some
    }

    /// Makes a description ready for matching; nothing where it describes no layout.
    pub fn compile(layout: &'static str) -> (r: Option<DateFormat>)
        ensures
            r is Some <==> DateFormat::is_layout(layout@),
            r matches Some(format) ==> format@ == layout@,
    {
        match compile_layout(layout) {
            Some(items) => Some(DateFormat { layout, items }),
            None => None,
        }
    }

    /// The description that the layout was made from.
    pub fn layout(&self) -> (r: &'static str)
        ensures
            r@ == self@,
    {
        self.layout
    }

    /// The date that the whole of `text` shows in this layout.
    pub fn parse(&self, text: &str) -> (r: Option<Date>)
        ensures
            r.deep_view() == date_in_layout(text@, self@),
    {
        proof {
            use_type_invariant(self);
        }
        match read_date(text, &self.items) {
            Some((year, month, day)) => Date::from_calendar_date(year, month, day),
            None => None,
        }
    }

    /// The moment that the whole of `text` shows in this layout, read on a clock that is
    /// `offset_hours` ahead of UTC.
    pub fn parse_moment(&self, text: &str, offset_hours: i8) -> (r: Option<Timestamp>)
        ensures
            r.deep_view() == moment_in_layout(text@, self@, offset_hours as int),
    {
        proof {
            use_type_invariant(self);
        }
        match read_date_time(text, &self.items) {
            Some((year, month, day, hour, minute, second)) => {
                match Date::from_calendar_date(year, month, day) {
                    Some(date) => Timestamp::new(date, hour, minute, second, offset_hours),
                    None => None,
                }
            },
            None => None,
        }
    }

    /// The date that `text` begins with in this layout, whose year has two digits: 2000 is
    /// added to them.
    pub fn parse_short_year(&self, text: &str) -> (r: Option<Date>)
        ensures
            r.deep_view() == short_year_date_in_layout(text@, self@),
    {
        proof {
            use_type_invariant(self);
        }
        match read_short_year_date(text, &self.items) {
            Some((month, day, year)) => {
                let year: i32 = 2000 + year as i32;
                Date::from_calendar_date(year, month, day)
            },
            None => None,
        }
    }
}

/// The views of a list of layouts.
pub open spec fn layouts(formats: Seq<DateFormat>) -> Seq<Seq<char>> {
    formats.map_values(|f: DateFormat| f@)
}

/// The date that `text` shows in the first layout of `layouts` in which it shows one.
pub open spec fn first_date(text: Seq<char>, layouts: Seq<Seq<char>>) -> Option<DateView>
    decreases layouts.len(),
{
    if layouts.len() == 0 {
        None
    } else {
        match date_in_layout(text, layouts[0]) {
            Some(date) => Some(date),
            None => first_date(text, layouts.skip(1)),
        }
    }
}

/// Tries the layouts in their order and gives the date of the first in which `text` shows
/// one. No layout is tried after that.
pub fn parse_date(text: &str, formats: &Vec<DateFormat>) -> (r: Option<Date>)
    ensures
        r.deep_view() == first_date(text@, layouts(formats@)),
{
    let ghost all = layouts(formats@);
    let mut i: usize = 0;
    assert(all.skip(0) =~= all);
    while i < formats.len()
        invariant
            i <= formats.len(),
            all == layouts(formats@),
            first_date(text@, all) == first_date(text@, all.skip(i as int)),
        decreases formats.len() - i,
    {
        assert(all.skip(i as int)[0] == formats@[i as int]@);
        assert(all.skip(i as int).skip(1) =~= all.skip(i + 1));
        match formats[i].parse(text) {
            Some(date) => {
                return Some(date);
            },
            None => {},
        }
        i += 1;
    }
    None
}

/// `date`, a space, and `year` in base ten.
pub open spec fn with_year(date: Seq<char>, year: int) -> Seq<char> {
    date + seq![' '] + signed_decimal(year)
}

/// `date`, a space, and `year` in base ten.
pub fn append_year(date: &str, year: i32) -> (r: String)
    ensures
        r@ == with_year(date@, year as int),
{
    let mut text = date.to_owned();
    proof {
        reveal_strlit(" ");
        assert(" "@ =~= seq![' ']);
    }
    text.append(" ");
    push_signed_decimal(&mut text, year);
    text
}

/// Reads a date whose text leaves the year out: the year is written behind the text, and
/// the layouts are tried in their order on the two together.
pub fn try_date_formats(date: &str, year: i32, formats: &Vec<DateFormat>) -> (r: Option<Date>)
    ensures
        r.deep_view() == first_date(with_year(date@, year as int), layouts(formats@)),
{
    let text = append_year(date, year);
    parse_date(text.as_str(), formats)
}

/// The layout of the oldest match dates: a day of the week, then month, day and a year
/// of two digits between slashes.
pub const MATCH_DATE_FORMAT_OLD: &'static str =
    "[weekday case_sensitive:false repr:short], [month padding:none]/[day padding:none]/[year repr:last_two]";

/// A layout of match dates once their year is written behind them: day of the week, a
/// comma, month, day and year.
pub const MATCH_DATE_FORMAT: &'static str =
    "[weekday case_sensitive:false repr:short], [month repr:short] [day padding:none] [year]";

/// The same layout without the comma.
pub const MATCH_DATE_FORMAT2: &'static str =
    "[weekday case_sensitive:false repr:short] [month repr:short] [day padding:none] [year]";

/// The layouts of match dates, in the order in which they are tried.
pub open spec fn match_date_layouts() -> Seq<Seq<char>> {
    seq![MATCH_DATE_FORMAT@, MATCH_DATE_FORMAT2@]
}

/// The layouts of match dates whose text leaves the year out, ready for matching, in the
/// order in which they are tried; nothing where one of them describes no layout.
pub fn match_date_formats() -> (r: Option<Vec<DateFormat>>)
    ensures
        r is Some <==> DateFormat::is_layout(MATCH_DATE_FORMAT@) && DateFormat::is_layout(
            MATCH_DATE_FORMAT2@,
        ),
        r matches Some(formats) ==> layouts(formats@) == match_date_layouts(),
{
    let first = DateFormat::compile(MATCH_DATE_FORMAT);
    let second = DateFormat::compile(MATCH_DATE_FORMAT2);
    match (first, second) {
        (Some(first), Some(second)) => {
            let mut formats: Vec<DateFormat> = Vec::new();
            formats.push(first);
            formats.push(second);
            assert(layouts(formats@) =~= match_date_layouts());
            Some(formats)
        },
        _ => None,
    }
}

/// Reads a match date in the oldest layout, such as `Wed, 5/13/09`. Its year has two
/// digits and no century: 2000 is added.
pub fn parse_old_match_date(date: &str) -> (r: Result<Date, ParseError>)
    ensures
        match short_year_date_in_layout(date@, MATCH_DATE_FORMAT_OLD@) {
            Some(found) => r is Ok && r->Ok_0.deep_view() == found,
            None => r is Err && r->Err_0.deep_view() == (ParseErrorView::InvalidDate {
                date: date@,
                role: "match date"@,
            }),
        },
{
    let found = match DateFormat::compile(MATCH_DATE_FORMAT_OLD) {
        Some(format) => format.parse_short_year(date),
        None => None,
    };
    match found {
        Some(found) => Ok(found),
        None => Err(ParseError::InvalidDate { date: date.to_owned(), role: "match date" }),
    }
}

/// The date of a match: `date` in the oldest layout, which holds its own year, and
/// otherwise `date` with `year` behind it in the first of the later layouts that fits.
pub open spec fn match_date(date: Seq<char>, year: int) -> Option<DateView> {
    match short_year_date_in_layout(date, MATCH_DATE_FORMAT_OLD@) {
        Some(found) => Some(found),
        None => if DateFormat::is_layout(MATCH_DATE_FORMAT@) && DateFormat::is_layout(
            MATCH_DATE_FORMAT2@,
        ) {
            first_date(with_year(date, year), match_date_layouts())
        } else {
            None
        },
    }
}

/// Reads the date of a match. The oldest layout is tried first: a text in it would be
/// misread by the later ones.
pub fn parse_match_date(date: &str, year: i32) -> (r: Option<Date>)
    ensures
        r.deep_view() == match_date(date@, year as int),
{
    match parse_old_match_date(date) {
        Ok(found) => Some(found),
        Err(_) => match match_date_formats() {
            Some(formats) => try_date_formats(date, year, &formats),
            None => None,
        },
    }
}

} // verus!
