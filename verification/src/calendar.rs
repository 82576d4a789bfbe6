//! Calendar days and the trailing window that every query covers.
//!
//! A day is held as its number in the proleptic Gregorian calendar, counted
//! from 1 January of year 1 as day 1, so that "seven days earlier" is plain
//! subtraction. Turning such a number into text is left to `chrono`. No
//! clock is read here: the caller says which day is today.

use vstd::prelude::*;
use crate::request::opt_text;

verus! {

/// How many days a query window reaches back from its last day.
pub const WINDOW_DAYS: i32 = 7;

/// The text `YYYY-MM-DD` of the day with the given number, as `chrono`
/// writes it, or `None` for a number that `chrono` has no date for.
pub uninterp spec fn ymd_text(day: int) -> Option<Seq<char>>;

/// Trusted: `chrono::NaiveDate::from_num_days_from_ce_opt` followed by
/// `NaiveDate::format` with the pattern `%Y-%m-%d`. The first gives `None`
/// when the number lies outside the dates `chrono` can hold and never
/// panics; the pattern is well formed, so the second always yields text. The
/// contract only gives the outcome its name: it depends on `day` alone.
#[verifier::external_body]
fn format_day(day: i32) -> (r: Option<String>)
    ensures
        opt_text(r) == ymd_text(day as int),
{
    match chrono::NaiveDate::from_num_days_from_ce_opt(day) {
        Some(date) => Some(date.format("%Y-%m-%d").to_string()),
        None => None,
    }
}

/// The first and last day of a query window, each as `YYYY-MM-DD`.
#[derive(Debug, Clone, PartialEq, Eq)]
pub struct DateRange {
    pub start: String,
    pub end: String,
}

/// A `DateRange` as sequences of characters.
pub struct DateRangeView {
    pub start: Seq<char>,
    pub end: Seq<char>,
}

impl View for DateRange {
    type V = DateRangeView;

    open spec fn view(&self) -> DateRangeView {
        DateRangeView { start: self.start@, end: self.end@ }
    }
}

/// The window that ends on day `today`: it starts exactly `WINDOW_DAYS`
/// earlier. There is none when either day has no text.
pub open spec fn window_ending(today: int) -> Option<DateRangeView> {
    if today - WINDOW_DAYS >= i32::MIN && ymd_text(today) is Some && ymd_text(
        today - WINDOW_DAYS,
    ) is Some {
        Some(
            DateRangeView {
                start: ymd_text(today - WINDOW_DAYS).unwrap(),
                end: ymd_text(today).unwrap(),
            },
        )
    } else {
        None
    }
}

/// The view of an optional window.
pub open spec fn opt_window(o: Option<DateRange>) -> Option<DateRangeView> {
    match o {
        Some(range) => Some(range@),
        None => None,
    }
}

impl DateRange {
    /// The trailing window that ends on day number `today`, or `None` when
    /// the window reaches outside the calendar.
    pub fn ending(today: i32) -> (r: Option<DateRange>)
        ensures
            opt_window(r) == window_ending(today as int),
    {
        if today < i32::MIN + WINDOW_DAYS {
            return None;
        }
        let end = match format_day(today) {
            Some(text) => text,
            None => { return None; },
        };
        match format_day(today - WINDOW_DAYS) {
            Some(start) => Some(DateRange { start, end }),
            None => None,
        }
    }
}

} // verus!
