//! Calendar items: one iCalendar object inside one calendar.
use vstd::prelude::*;

use crate::calendar::new_uuid_text;

use calcard::Entry;


verus! {

#[verifier::external_type_specification]
#[verifier::external_body]
pub struct ExICalendar(calcard::icalendar::ICalendar);

#[verifier::external_type_specification]
#[verifier::external_body]
pub struct ExICalendarComponentType(calcard::icalendar::ICalendarComponentType);

#[verifier::external_type_specification]
#[verifier::external_body]
pub struct ExEntry(calcard::Entry);

pub assume_specification[ <calcard::Entry as core::clone::Clone>::clone ](
    e: &calcard::Entry,
) -> calcard::Entry;

pub assume_specification[ <calcard::icalendar::ICalendar as core::clone::Clone>::clone ](
    ical: &calcard::icalendar::ICalendar,
) -> calcard::icalendar::ICalendar;

pub assume_specification[ <calcard::icalendar::ICalendarComponentType as core::clone::Clone>::clone ](
    c: &calcard::icalendar::ICalendarComponentType,
) -> calcard::icalendar::ICalendarComponentType;

/// Why a text is not an iCalendar object.
#[derive(Clone, Debug)]
pub enum ParseCalendarItemError {
    /// The text is a vCard.
    InvalidFormat,
    /// A line that could not be read.
    InvalidLine(String),
    /// The text ended inside a component.
    UnexpectedEof,
    /// The text nests or holds too many components.
    TooManyComponents,
    /// A component closed with the wrong name: expected, found.
    UnexpectedComponentEnd(calcard::icalendar::ICalendarComponentType, calcard::icalendar::ICalendarComponentType),
    /// A component that is never closed.
    UnterminatedComponent(String),
    /// An outcome of the parser that this library does not tell apart.
    Unknown(Entry),
}

/// What the iCalendar parser made of a text, one variant per outcome.
pub(crate) enum IcalParse {
    Calendar(calcard::icalendar::ICalendar),
    VCard,
    InvalidLine(String),
    Eof,
    TooManyComponents,
    UnexpectedComponentEnd(calcard::icalendar::ICalendarComponentType, calcard::icalendar::ICalendarComponentType),
    UnterminatedComponent(String),
    Unknown(Entry),
}

/// The error a parser outcome maps to; `None` for a calendar.
pub(crate) open spec fn parse_error_of(p: IcalParse) -> Option<ParseCalendarItemError> {
    match p {
        IcalParse::Calendar(_) => None,
        IcalParse::VCard => Some(ParseCalendarItemError::InvalidFormat),
        IcalParse::InvalidLine(l) => Some(ParseCalendarItemError::InvalidLine(l)),
        IcalParse::Eof => Some(ParseCalendarItemError::UnexpectedEof),
        IcalParse::TooManyComponents => Some(ParseCalendarItemError::TooManyComponents),
        IcalParse::UnexpectedComponentEnd(e, f) => Some(
            ParseCalendarItemError::UnexpectedComponentEnd(e, f),
        ),
        IcalParse::UnterminatedComponent(c) => Some(
            ParseCalendarItemError::UnterminatedComponent(c),
        ),
        IcalParse::Unknown(e) => Some(ParseCalendarItemError::Unknown(e)),
    }
}

/// An iCalendar object as the parser read it. Only parsing makes one,
/// so it always holds the top component that writing it out starts from.
#[derive(Clone, Debug)]
pub struct Ical {
    inner: calcard::icalendar::ICalendar,
}

impl Ical {
    /// The object the parser returned.
    pub closed spec fn parsed(&self) -> calcard::icalendar::ICalendar {
        self.inner
    }

    /// The parsed object.
    pub fn calendar(&self) -> &calcard::icalendar::ICalendar {
        &self.inner
    }
}

/// A calendar item. Equality and hashing cover `id` and `calendar_id`
/// only: two items with the same pair are the same entity.
#[derive(Clone, Debug)]
pub struct CalendarItem {
    pub id: String,
    pub calendar_id: String,
    pub ical: Ical,
}

impl PartialEq for CalendarItem {
    fn eq(&self, other: &CalendarItem) -> (r: bool) {
        self.id == other.id && self.calendar_id == other.calendar_id
    }
}

impl vstd::std_specs::cmp::PartialEqSpecImpl for CalendarItem {
    open spec fn obeys_eq_spec() -> bool {
        true
    }

    open spec fn eq_spec(&self, other: &CalendarItem) -> bool {
        self.id@ == other.id@ && self.calendar_id@ == other.calendar_id@
    }
}

impl Eq for CalendarItem {}

impl core::hash::Hash for CalendarItem {
    /// Relies on the `Hash` of a pair of strings: the item hashes as its
    /// `(id, calendar_id)` pair.
    #[verifier::external_body]
    fn hash<H: core::hash::Hasher>(&self, state: &mut H) {
        core::hash::Hash::hash(&(&self.id, &self.calendar_id), state)
    }
}

impl CalendarItem {
    /// A fresh random (version 4) UUID, hyphenated, to use as an item id.
    pub fn new_uuid() -> String {
        new_uuid_text()
    }

    /// Parses `contents` as an iCalendar object.
    pub fn parse(contents: &str) -> (r: Result<Ical, ParseCalendarItemError>)
        ensures
            r is Ok == ical_parses(contents@),
    {
        let parsed = parse_ical(contents);
        Self::from_parse(parsed)
    }

    /// Maps a parser outcome to a calendar or to the error it stands for.
    pub(crate) fn from_parse(parsed: IcalParse) -> (r: Result<Ical, ParseCalendarItemError>)
        ensures
            match parsed {
                IcalParse::Calendar(c) => r is Ok && r->Ok_0.parsed() == c,
                _ => r == Err::<Ical, ParseCalendarItemError>(
                    parse_error_of(parsed)->0,
                ),
            },
    {
        match parsed {
            IcalParse::Calendar(c) => Ok(Ical { inner: c }),
            IcalParse::VCard => Err(ParseCalendarItemError::InvalidFormat),
            IcalParse::InvalidLine(l) => Err(ParseCalendarItemError::InvalidLine(l)),
            IcalParse::Eof => Err(ParseCalendarItemError::UnexpectedEof),
            IcalParse::TooManyComponents => Err(ParseCalendarItemError::TooManyComponents),
            IcalParse::UnexpectedComponentEnd(e, f) => Err(
                ParseCalendarItemError::UnexpectedComponentEnd(e, f),
            ),
            IcalParse::UnterminatedComponent(c) => Err(
                ParseCalendarItemError::UnterminatedComponent(c),
            ),
            IcalParse::Unknown(e) => Err(ParseCalendarItemError::Unknown(e)),
        }
    }

    /// The item's iCalendar text.
    pub fn to_string(&self) -> String {
        ical_text(&self.ical)
    }
}

/// Whether the iCalendar parser reads `text` as a calendar.
pub uninterp spec fn ical_parses(text: Seq<char>) -> bool;

/// Relies on `calcard::icalendar::ICalendar::parse`; each `Entry` it
/// returns as an error becomes the variant of the same name. Whether
/// the text reads as a calendar depends on the text alone.
#[verifier::external_body]
pub(crate) fn parse_ical(contents: &str) -> (r: IcalParse)
    ensures
        (r is Calendar) == ical_parses(contents@),
{
    match calcard::icalendar::ICalendar::parse(contents) {
        Ok(ical) | Err(Entry::ICalendar(ical)) => IcalParse::Calendar(ical),
        Err(Entry::VCard(_)) => IcalParse::VCard,
        Err(Entry::InvalidLine(line)) => IcalParse::InvalidLine(line),
        Err(Entry::Eof) => IcalParse::Eof,
        Err(Entry::TooManyComponents) => IcalParse::TooManyComponents,
        Err(Entry::UnexpectedComponentEnd { expected, found }) => {
            IcalParse::UnexpectedComponentEnd(expected, found)
        },
        Err(Entry::UnterminatedComponent(c)) => IcalParse::UnterminatedComponent(c.into_owned()),
        Err(other) => IcalParse::Unknown(other),
    }
}

/// Relies on `calcard::icalendar::ICalendar`'s `Display`: the object
/// written out as iCalendar text. Writing starts from component 0 and
/// panics without it; every `Ical` comes from the parser, which always
/// creates that component first (`icalendar/parser.rs`).
#[verifier::external_body]
pub(crate) fn ical_text(ical: &Ical) -> String {
    ical.inner.to_string()
}

/// Relies on `calcard::icalendar::ICalendarComponentType::as_str`: the
/// component's name (`VEVENT`, `VTODO`, ...).
#[verifier::external_body]
pub(crate) fn component_name(c: &calcard::icalendar::ICalendarComponentType) -> String {
    c.as_str().to_string()
}

} // verus!
