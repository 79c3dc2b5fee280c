use vstd::prelude::*;

verus! {

/// Whether chrono's proleptic Gregorian calendar holds the day with this
/// number, counting 0001-01-01 as day 1.
pub uninterp spec fn day_in_calendar(days: int) -> bool;

/// The day number (0001-01-01 is day 1) of a calendar date, or none where
/// year, month and day name no date.
pub uninterp spec fn days_of_civil(year: int, month: int, day: int) -> Option<int>;

/// chrono's `YYYY-MM-DD` rendering of the day with this number.
pub uninterp spec fn date_text(days: int) -> Seq<char>;

/// chrono's `YYYY-MM-DD hh:mm:ss` rendering of a day and a time of day.
pub uninterp spec fn date_time_text(days: int, hour: int, minute: int, second: int) -> Seq<char>;

/// Relies on chrono's `NaiveDate::from_num_days_from_ce_opt`: it returns a
/// date exactly for the day numbers that the calendar holds.
#[verifier::external_body]
fn calendar_holds(days: i32) -> (r: bool)
    ensures
        r == day_in_calendar(days as int),
{
    chrono::NaiveDate::from_num_days_from_ce_opt(days).is_some()
}

/// Relies on chrono's `NaiveDate::from_ymd_opt`, with the day number that
/// `num_days_from_ce` gives of the date it returns.
#[verifier::external_body]
fn civil_days(year: i32, month: u32, day: u32) -> (r: Option<i32>)
    ensures
        match r {
            Some(d) => days_of_civil(year as int, month as int, day as int) == Some(d as int)
                && day_in_calendar(d as int),
            None => days_of_civil(year as int, month as int, day as int) is None,
        },
{
    match chrono::NaiveDate::from_ymd_opt(year, month, day) {
        Some(date) => Some(chrono::Datelike::num_days_from_ce(&date)),
        None => None,
    }
}

/// Relies on chrono's `Display` of `NaiveDate`, for the date with the given
/// day number.
#[verifier::external_body]
fn render_date(days: i32) -> (r: String)
    requires
        day_in_calendar(days as int),
    ensures
        r@ == date_text(days as int),
{
    chrono::NaiveDate::from_num_days_from_ce_opt(days).unwrap().to_string()
}

/// Relies on chrono's `Display` of `NaiveDateTime`, for the date with the
/// given day number at the given time; `and_hms_opt` accepts every hour
/// below 24, minute below 60 and second below 60.
#[verifier::external_body]
fn render_date_time(days: i32, hour: u32, minute: u32, second: u32) -> (r: String)
    requires
        day_in_calendar(days as int),
        hour < 24,
        minute < 60,
        second < 60,
    ensures
        r@ == date_time_text(days as int, hour as int, minute as int, second as int),
{
    chrono::NaiveDate::from_num_days_from_ce_opt(days).unwrap().and_hms_opt(hour, minute, second).unwrap().to_string()
}

/// A calendar date, held as its day number: 0001-01-01 is day 1 and
/// 0000-12-31 is day 0, the epoch of the date codec.
#[derive(Clone, Copy, Debug, PartialEq, Eq, Structural)]
pub struct Date {
    days: i32,
}

impl View for Date {
    type V = int;

    open spec fn view(&self) -> int {
        self.spec_days() as int
    }
}

impl Date {
    pub closed spec fn spec_days(&self) -> i32 {
        self.days
    }

    #[verifier::type_invariant]
    spec fn in_calendar(&self) -> bool {
        day_in_calendar(self.days as int)
    }

    /// The date with the given day number, none where the calendar does not
    /// reach that far.
    pub fn from_days(days: i32) -> (r: Option<Date>)
        ensures
            r is Some <==> day_in_calendar(days as int),
            r matches Some(d) ==> d@ == days as int,
    {
        if calendar_holds(days) {
            Some(Date { days })
        } else {
            None
        }
    }

    /// The date given by year, month and day, none where they name no date.
    pub fn from_ymd(year: i32, month: u32, day: u32) -> (r: Option<Date>)
        ensures
            match r {
                Some(d) => days_of_civil(year as int, month as int, day as int) == Some(d@),
                None => days_of_civil(year as int, month as int, day as int) is None,
            },
    {
        match civil_days(year, month, day) {
            Some(d) => Some(Date { days: d }),
            None => None,
        }
    }

    /// The day number of this date.
    pub fn days(&self) -> (r: i32)
        ensures
            r as int == self@,
            day_in_calendar(r as int),
    {
        proof {
            use_type_invariant(self);
        }
        self.days
    }

    /// The date as `YYYY-MM-DD`.
    pub fn to_text(&self) -> (r: String)
        ensures
            r@ == date_text(self@),
    {
        proof {
            use_type_invariant(self);
        }
        render_date(self.days)
    }

    /// The date followed by a time of day, as `YYYY-MM-DD hh:mm:ss`.
    pub fn text_with_time(&self, hour: u32, minute: u32, second: u32) -> (r: String)
        requires
            hour < 24,
            minute < 60,
            second < 60,
        ensures
            r@ == date_time_text(self@, hour as int, minute as int, second as int),
    {
        proof {
            use_type_invariant(self);
        }
        render_date_time(self.days, hour, minute, second)
    }
}

} // verus!
