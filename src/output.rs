use vstd::prelude::*;

use crate::formatting::Formatter;
use crate::time::{Date, Time};
use crate::time_format::{date_can_format, date_text, time_text, DateFormatter, DepthStyle, TimeFormatter};

verus! {

/// How to write a date.
#[derive(Debug, PartialEq, Eq, Clone, Copy)]
pub struct DateOptions {
    pub style: DepthStyle,
}

/// How to write a time of day: with the fraction of an edge, in full, or to a number of
/// digits.
#[derive(Debug, PartialEq, Eq, Clone, Copy)]
pub enum TimeOptions {
    FullWithFraction,
    Full,
    Precision(usize),
}

/// What to write.
#[derive(Debug, PartialEq, Eq, Clone, Copy)]
pub enum OutputSpec {
    Json,
    Date(DateOptions),
    Time { date: DateOptions, time: TimeOptions },
}

impl DateOptions {
    /// The long style where `long` is set, else the short one.
    pub fn from_flags(long: bool) -> (r: DateOptions)
        ensures
            r.style == (if long { DepthStyle::Long } else { DepthStyle::Short }),
    {
        DateOptions { style: if long { DepthStyle::Long } else { DepthStyle::Short } }
    }
}

impl TimeOptions {
    /// In full with the fraction where `full` is set, whatever the precision; else to the
    /// precision given, or in full.
    pub fn from_flags(full: bool, precision: Option<usize>) -> (r: TimeOptions)
        ensures
            full ==> r == TimeOptions::FullWithFraction,
            !full && precision is Some ==> r == TimeOptions::Precision(precision->0),
            !full && precision is None ==> r == TimeOptions::Full,
    {
        if full {
            return TimeOptions::FullWithFraction;
        }
        match precision {
            Some(p) => TimeOptions::Precision(p),
            None => TimeOptions::Full,
        }
    }
}

impl OutputSpec {
    /// JSON where `json` is set, whatever the other flags; else a date and a time with the
    /// options the flags give.
    pub fn from_flags(json: bool, long: bool, full: bool, precision: Option<usize>) -> (r: OutputSpec)
        ensures
            json ==> r == OutputSpec::Json,
            !json ==> r == (OutputSpec::Time {
                date: DateOptions { style: if long { DepthStyle::Long } else { DepthStyle::Short } },
                time: if full {
                    TimeOptions::FullWithFraction
                } else if precision is Some {
                    TimeOptions::Precision(precision->0)
                } else {
                    TimeOptions::Full
                },
            }),
    {
        if json {
            return OutputSpec::Json;
        }
        OutputSpec::Time { date: DateOptions::from_flags(long), time: TimeOptions::from_flags(full, precision) }
    }

    /// A date alone, in the style the flag gives.
    pub fn from_date_flags(long: bool) -> (r: OutputSpec)
        ensures
            r == OutputSpec::Date(
                DateOptions { style: if long { DepthStyle::Long } else { DepthStyle::Short } },
            ),
    {
        OutputSpec::Date(DateOptions::from_flags(long))
    }
}

/// The text of a date, with the standard separators.
pub fn write_date(data: &Date, style: DepthStyle) -> (r: String)
    requires
        date_can_format(style, *data),
    ensures
        r@ == date_text(" ∘ "@, style, *data),
{
    let formatter = DateFormatter::standard(" ∘ ", style);
    formatter.format(data)
}

/// The text of a date and a time of day to a precision, with the standard separators.
pub fn write_time(data: &Time, style: DepthStyle, precision: Option<usize>) -> (r: String)
    requires
        date_can_format(style, data.date),
    ensures
        r@ == time_text(" ∘ "@, style, precision, *data),
{
    let formatter = TimeFormatter::standard(" ∘ ", style, precision);
    formatter.format(data)
}

} // verus!
