//! Dates, times and their offsets from UTC, as they stand in the text.

use vstd::prelude::*;

verus! {

/// An offset from UTC written out: `<pos_neg><hour>:<minute>`.
#[derive(Debug, Eq)]
pub struct TimeOffsetAmount<'a> {
    pub pos_neg: &'a str,
    pub hour: &'a str,
    pub minute: &'a str,
}

/// The offset of a date-time: `Z` for UTC, or an offset written out.
#[derive(Debug, Eq)]
pub enum TimeOffset<'a> {
    Z,
    Time(TimeOffsetAmount<'a>),
}

/// `<year>-<month>-<day>T<hour>:<minute>:<second>(.<fraction>)?<offset>`
#[derive(Debug, Eq)]
pub struct DateTime<'a> {
    pub year: &'a str,
    pub month: &'a str,
    pub day: &'a str,
    pub hour: &'a str,
    pub minute: &'a str,
    pub second: &'a str,
    pub fraction: Option<&'a str>,
    pub offset: TimeOffset<'a>,
}

} // verus!
