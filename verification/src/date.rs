//! Release dates.
use chrono::{Datelike, TimeZone};
use vstd::prelude::*;

verus! {

/// The earliest instant a release date can have, in seconds since 1970.
pub const MIN_TIMESTAMP: i64 = -8334601228800;

/// The last instant a release date can have, in seconds since 1970.
pub const MAX_TIMESTAMP: i64 = 8210266876799;

/// When an album came out: an instant, and the offset from UTC it was given in.
#[derive(Clone, Copy, Debug)]
pub struct ReleaseDate {
    timestamp: i64,
    nanos: u32,
    offset: i32,
}

/// The contents of a release date.
pub struct ReleaseDateView {
    /// Whole seconds since the start of 1970 in UTC.
    pub timestamp: int,
    /// Nanoseconds past that second; more than one second of them in a leap second.
    pub nanos: int,
    /// Seconds that local time is ahead of UTC.
    pub offset: int,
}

impl DeepView for ReleaseDate {
    type V = ReleaseDateView;

    closed spec fn deep_view(&self) -> ReleaseDateView {
        ReleaseDateView {
            timestamp: self.timestamp as int,
            nanos: self.nanos as int,
            offset: self.offset as int,
        }
    }
}

/// Whether an instant lies in the calendar and an offset is below one day.
pub open spec fn in_calendar(timestamp: int, offset: int) -> bool {
    &&& MIN_TIMESTAMP <= timestamp <= MAX_TIMESTAMP
    &&& -86400 < offset < 86400
}

/// The second, counted from the start of 1970, at which a year of the proleptic
/// Gregorian calendar begins.
pub open spec fn year_begins(year: int) -> int {
    86400 * (365 * (year - 1970) + (year - 1) / 4 - (year - 1) / 100 + (year - 1) / 400 - 477)
}

/// Whether the local time of an instant lies in a year.
pub open spec fn falls_in_year(timestamp: int, offset: int, year: int) -> bool {
    year_begins(year) <= timestamp + offset < year_begins(year + 1)
}

/// The calendar year of a release date, in its own offset.
pub open spec fn year_of(date: ReleaseDateView) -> int {
    choose|year: int| #[trigger] falls_in_year(date.timestamp, date.offset, year)
}

/// Whether the first date is strictly more recent. An absent date is older than
/// any other.
pub open spec fn later(first: Option<ReleaseDateView>, second: Option<ReleaseDateView>) -> bool {
    match (first, second) {
        (Some(a), Some(b)) => a.timestamp > b.timestamp || (a.timestamp == b.timestamp && a.nanos
            > b.nanos),
        (Some(_), None) => true,
        (None, _) => false,
    }
}

proof fn lemma_years_ascend(earlier: int, later: int)
    requires
        earlier <= later,
    ensures
        year_begins(earlier) <= year_begins(later),
    decreases later - earlier,
{
    if earlier < later {
        lemma_years_ascend(earlier, later - 1);
    }
}

/// The local time of an instant lies in no more than one year.
pub proof fn lemma_one_year(timestamp: int, offset: int, first: int, second: int)
    requires
        falls_in_year(timestamp, offset, first),
        falls_in_year(timestamp, offset, second),
    ensures
        first == second,
{
    if first < second {
        lemma_years_ascend(first + 1, second);
    } else if second < first {
        lemma_years_ascend(second + 1, first);
    }
}

/// The year that `chrono` reports for an instant in a fixed offset, through
/// `Datelike::year` of a `DateTime<FixedOffset>`. The contract claims that it is
/// the proleptic Gregorian year that the local time lies in, for every instant and
/// offset that a `DateTime<FixedOffset>` can hold.
#[verifier::external_body]
fn local_year(timestamp: i64, offset: i32) -> (year: i32)
    requires
        in_calendar(timestamp as int, offset as int),
    ensures
        falls_in_year(timestamp as int, offset as int, year as int),
{
    let zone = chrono::FixedOffset::east_opt(offset).unwrap();
    zone.timestamp_opt(timestamp, 0).unwrap().year()
}

impl ReleaseDate {
    #[verifier::type_invariant]
    spec fn well_formed(self) -> bool {
        in_calendar(self.timestamp as int, self.offset as int)
    }

    /// A release date from its instant and offset, when they lie in the calendar.
    pub fn new(timestamp: i64, nanos: u32, offset: i32) -> (date: Option<ReleaseDate>)
        ensures
            date is Some <==> in_calendar(timestamp as int, offset as int),
            date matches Some(date) ==> date.deep_view() == (ReleaseDateView {
                timestamp: timestamp as int,
                nanos: nanos as int,
                offset: offset as int,
            }),
    {
        if timestamp < MIN_TIMESTAMP || timestamp > MAX_TIMESTAMP || offset <= -86400 || offset
            >= 86400 {
            None
        } else {
            Some(ReleaseDate { timestamp, nanos, offset })
        }
    }

    /// The instant, in seconds and nanoseconds, and the offset.
    pub fn parts(&self) -> (parts: (i64, u32, i32))
        ensures
            self.deep_view() == (ReleaseDateView {
                timestamp: parts.0 as int,
                nanos: parts.1 as int,
                offset: parts.2 as int,
            }),
    {
        (self.timestamp, self.nanos, self.offset)
    }

    /// The calendar year, in the date's own offset.
    pub fn year(&self) -> (year: i32)
        ensures
            year == year_of(self.deep_view()),
            falls_in_year(self.deep_view().timestamp, self.deep_view().offset, year as int),
    {
        proof {
            use_type_invariant(self);
        }
        let year = local_year(self.timestamp, self.offset);
        proof {
            let date = self.deep_view();
            lemma_one_year(date.timestamp, date.offset, year as int, year_of(date));
        }
        year
    }
}

/// Whether the first date is strictly more recent.
pub fn is_later(first: &Option<ReleaseDate>, second: &Option<ReleaseDate>) -> (is_later: bool)
    ensures
        is_later == later(first.deep_view(), second.deep_view()),
{
    match (first, second) {
        (Some(a), Some(b)) => a.timestamp > b.timestamp || (a.timestamp == b.timestamp && a.nanos
            > b.nanos),
        (Some(_), None) => true,
        (None, _) => false,
    }
}

} // verus!
