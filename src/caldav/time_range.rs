//! Time bounds of a calendar query, as UTC iCalendar timestamps.
use vstd::prelude::*;

verus! {

pub open spec fn is_digit(c: char) -> bool {
    '0' <= c && c <= '9'
}

pub open spec fn digit_value(c: char) -> int {
    c as int - '0' as int
}

/// The number spelled by the two digits of `s` at `i` and `i + 1`.
pub open spec fn two_digits(s: Seq<char>, i: int) -> int {
    10 * digit_value(s[i]) + digit_value(s[i + 1])
}

/// `s` is a UTC timestamp `YYYYMMDDTHHMMSSZ`: digits in the date and
/// time positions, `T` and `Z` in theirs, month 1 to 12, day 1 to 31,
/// hour up to 23, minute and second up to 59.
pub open spec fn is_utc_timestamp(s: Seq<char>) -> bool {
    &&& s.len() == 16
    &&& forall|i: int| 0 <= i < 8 ==> is_digit(#[trigger] s[i])
    &&& s[8] == 'T'
    &&& forall|i: int| 9 <= i < 15 ==> is_digit(#[trigger] s[i])
    &&& s[15] == 'Z'
    &&& 1 <= two_digits(s, 4) <= 12
    &&& 1 <= two_digits(s, 6) <= 31
    &&& two_digits(s, 9) <= 23
    &&& two_digits(s, 11) <= 59
    &&& two_digits(s, 13) <= 59
}

/// A time range filter: at least one bound, each a UTC timestamp.
#[derive(Clone, Debug)]
pub struct TimeRange {
    start: Option<String>,
    end: Option<String>,
}

/// Why a time range was refused.
#[derive(Clone, Debug, PartialEq, Eq)]
pub enum TimeRangeError {
    /// Neither a start nor an end was given.
    MissingBounds,
    /// The start is not a `YYYYMMDDTHHMMSSZ` timestamp.
    InvalidStart(String),
    /// The end is not a `YYYYMMDDTHHMMSSZ` timestamp.
    InvalidEnd(String),
}

pub open spec fn bound_ok(b: Option<String>) -> bool {
    match b {
        Some(s) => is_utc_timestamp(s@),
        None => true,
    }
}

impl TimeRange {
    pub closed spec fn spec_start(&self) -> Option<String> {
        self.start
    }

    pub closed spec fn spec_end(&self) -> Option<String> {
        self.end
    }

    /// Every time range holds at least one bound, and only timestamps.
    pub closed spec fn wf(&self) -> bool {
        (self.start is Some || self.end is Some) && bound_ok(self.start) && bound_ok(self.end)
    }

    /// A range from `start` to `end`: refused when both are absent or
    /// either is not a UTC timestamp (the start is checked first).
    pub fn new(start: Option<String>, end: Option<String>) -> (r: Result<TimeRange, TimeRangeError>)
        ensures
            match r {
                Ok(t) => {
                    &&& t.wf()
                    &&& t.spec_start() == start
                    &&& t.spec_end() == end
                },
                Err(TimeRangeError::MissingBounds) => start is None && end is None,
                Err(TimeRangeError::InvalidStart(s)) => start == Some(s) && !is_utc_timestamp(s@),
                Err(TimeRangeError::InvalidEnd(e)) => bound_ok(start) && (start is Some
                    || end is Some) && end == Some(e) && !is_utc_timestamp(e@),
            },
            r is Ok <==> ((start is Some || end is Some) && bound_ok(start) && bound_ok(end)),
    {
        if start.is_none() && end.is_none() {
            return Err(TimeRangeError::MissingBounds);
        }
        let start = match start {
            Some(s) => {
                if !is_utc_timestamp_str(s.as_str()) {
                    return Err(TimeRangeError::InvalidStart(s));
                }
                Some(s)
            },
            None => None,
        };
        let end = match end {
            Some(e) => {
                if !is_utc_timestamp_str(e.as_str()) {
                    return Err(TimeRangeError::InvalidEnd(e));
                }
                Some(e)
            },
            None => None,
        };
        Ok(TimeRange { start, end })
    }

    pub fn start(&self) -> (r: Option<&str>)
        ensures
            match r {
                Some(s) => self.spec_start() is Some && s@ == self.spec_start()->0@,
                None => self.spec_start() is None,
            },
    {
        match &self.start {
            Some(s) => Some(s.as_str()),
            None => None,
        }
    }

    pub fn end(&self) -> (r: Option<&str>)
        ensures
            match r {
                Some(s) => self.spec_end() is Some && s@ == self.spec_end()->0@,
                None => self.spec_end() is None,
            },
    {
        match &self.end {
            Some(s) => Some(s.as_str()),
            None => None,
        }
    }
}

fn is_digit_char(c: char) -> (r: bool)
    ensures
        r == is_digit(c),
{
    '0' <= c && c <= '9'
}

/// Number spelled by two digit characters.
fn two_digit_value(a: char, b: char) -> (r: u32)
    requires
        is_digit(a),
        is_digit(b),
    ensures
        r as int == 10 * digit_value(a) + digit_value(b),
{
    10 * (a as u32 - '0' as u32) + (b as u32 - '0' as u32)
}

/// Whether `s` is a `YYYYMMDDTHHMMSSZ` timestamp.
pub fn is_utc_timestamp_str(s: &str) -> (r: bool)
    ensures
        r == is_utc_timestamp(s@),
{
    if s.unicode_len() != 16 {
        return false;
    }
    let mut i: usize = 0;
    while i < 15
        invariant
            s@.len() == 16,
            i <= 15,
            forall|j: int| 0 <= j < i && j != 8 ==> is_digit(#[trigger] s@[j]),
        decreases 15 - i,
    {
        if i != 8 && !is_digit_char(s.get_char(i)) {
            return false;
        }
        i = i + 1;
    }
    if s.get_char(8) != 'T' || s.get_char(15) != 'Z' {
        return false;
    }
    let month = two_digit_value(s.get_char(4), s.get_char(5));
    let day = two_digit_value(s.get_char(6), s.get_char(7));
    let hour = two_digit_value(s.get_char(9), s.get_char(10));
    let minute = two_digit_value(s.get_char(11), s.get_char(12));
    let second = two_digit_value(s.get_char(13), s.get_char(14));
    1 <= month && month <= 12 && 1 <= day && day <= 31 && hour <= 23 && minute <= 59 && second
        <= 59
}

} // verus!
