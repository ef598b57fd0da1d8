use vstd::prelude::*;

use crate::calendar::Calendar;
use crate::clock::Clock;
use crate::decimal::{append_decimal, decimal};
use crate::depth::{depth_year, depth_year_fits, Depth};
use crate::formatting::{
    joined, shown_digits, ConstrainedRepFormatter, Formatter, IntegerFormatter, MixedPointFormatter,
    PhaseFormatter,
};
use crate::integral::{ConstrainedRep, Integer, Natural};
use crate::mixed::phase_view;
use crate::time::{Date, Time};
use crate::units::Year;

verus! {

/// How a date writes the depth of its year: the year alone, or the aeon and the year's digits.
#[derive(Debug, PartialEq, Eq, Clone, Copy)]
pub enum DepthStyle {
    Short,
    Long,
}

/// Writes a year in decimal.
#[derive(Debug)]
pub struct YearFormatter(pub IntegerFormatter);

impl YearFormatter {
    pub fn new() -> (r: YearFormatter) {
        YearFormatter(ConstrainedRepFormatter::new())
    }
}

impl Formatter<Year> for YearFormatter {
    open spec fn can_format(&self, data: Year) -> bool {
        true
    }

    open spec fn text(&self, data: Year) -> Seq<char> {
        decimal(data.0@)
    }

    fn fmt(&self, buffer: &mut String, data: &Year) {
        self.0.fmt(buffer, &data.0);
    }
}

/// Writes the depth of a year.
pub enum DepthFormatter<'a> {
    Depth(MixedPointFormatter<'a, Integer, IntegerFormatter>),
    Year(YearFormatter),
}

impl<'a> Formatter<Depth> for DepthFormatter<'a> {
    open spec fn can_format(&self, data: Depth) -> bool {
        match self {
            DepthFormatter::Depth(_) => true,
            DepthFormatter::Year(_) => depth_year_fits(data.0.cycle@, phase_view(data.0.phase)),
        }
    }

    open spec fn text(&self, data: Depth) -> Seq<char> {
        match self {
            DepthFormatter::Depth(f) => f.text(data.0),
            DepthFormatter::Year(_) => decimal(depth_year(data.0.cycle@, phase_view(data.0.phase))),
        }
    }

    fn fmt(&self, buffer: &mut String, data: &Depth) {
        match self {
            DepthFormatter::Depth(formatter) => formatter.fmt(buffer, &data.0),
            DepthFormatter::Year(formatter) => formatter.fmt(buffer, &Year::from_depth(data)),
        }
    }
}

/// Writes the day of a year: the digits of a span, or how far into the interstice it is.
pub struct CalendarFormatter<'a> {
    pub phase: PhaseFormatter<'a>,
}

impl<'a> CalendarFormatter<'a> {
    pub fn standard(separator: &'a str) -> (r: CalendarFormatter<'a>)
        ensures
            r.phase.separator == separator,
            r.phase.precision is None,
    {
        CalendarFormatter { phase: PhaseFormatter::standard(separator) }
    }
}

impl<'a> Formatter<Calendar> for CalendarFormatter<'a> {
    open spec fn can_format(&self, data: Calendar) -> bool {
        true
    }

    open spec fn text(&self, data: Calendar) -> Seq<char> {
        match data {
            Calendar::Span(span) => self.phase.text(span.0),
            Calendar::Interstice(i) => "Interstice Natural("@ + decimal(i@) + ")"@,
        }
    }

    fn fmt(&self, buffer: &mut String, data: &Calendar) {
        match data {
            Calendar::Span(span) => self.phase.fmt(buffer, &span.0),
            Calendar::Interstice(i) => {
                buffer.append("Interstice Natural(");
                append_decimal(buffer, i.out());
                buffer.append(")");
            },
        }
    }
}

/// Writes a time of day, most significant digit first, to a given precision.
pub struct ClockFormatter<'a> {
    pub phase: PhaseFormatter<'a>,
}

impl<'a> ClockFormatter<'a> {
    pub fn standard(separator: &'a str, precision: Option<usize>) -> (r: ClockFormatter<'a>)
        ensures
            r.phase.separator == separator,
            r.phase.precision == precision,
    {
        ClockFormatter { phase: PhaseFormatter::standard_with_precision(separator, precision) }
    }
}

impl<'a> Formatter<Clock> for ClockFormatter<'a> {
    open spec fn can_format(&self, data: Clock) -> bool {
        true
    }

    open spec fn text(&self, data: Clock) -> Seq<char> {
        self.phase.text(data.0)
    }

    fn fmt(&self, buffer: &mut String, data: &Clock) {
        self.phase.fmt(buffer, &data.0);
    }
}

/// Writes a date: a mark, the depth of its year, a separator, then the day of the year.
pub struct DateFormatter<'a> {
    pub depth: DepthFormatter<'a>,
    pub calendar: CalendarFormatter<'a>,
    pub separator: &'a str,
}

impl<'a> DateFormatter<'a> {
    pub fn standard(phase_separator: &'a str, depth_style: DepthStyle) -> (r: DateFormatter<'a>)
        ensures
            r.separator@ == ": "@,
            r.calendar.phase.separator == phase_separator,
            r.calendar.phase.precision is None,
            depth_style is Short ==> r.depth is Year,
            depth_style is Long ==> r.depth is Depth && r.depth->Depth_0.separator@ == ": "@
                && r.depth->Depth_0.phase.separator == phase_separator
                && r.depth->Depth_0.phase.precision is None,
            forall|d: Date| #[trigger] r.text(d) == date_text(phase_separator@, depth_style, d),
            forall|d: Date| #[trigger] r.can_format(d) == date_can_format(depth_style, d),
    {
        let depth = match depth_style {
            DepthStyle::Short => DepthFormatter::Year(YearFormatter::new()),
            DepthStyle::Long => DepthFormatter::Depth(
                MixedPointFormatter::new(": ", ConstrainedRepFormatter::new(), PhaseFormatter::standard(phase_separator)),
            ),
        };
        DateFormatter { depth, calendar: CalendarFormatter::standard(phase_separator), separator: ": " }
    }
}

impl<'a> Formatter<Date> for DateFormatter<'a> {
    open spec fn can_format(&self, data: Date) -> bool {
        self.depth.can_format(data.depth)
    }

    open spec fn text(&self, data: Date) -> Seq<char> {
        "∆ "@ + self.depth.text(data.depth) + self.separator@ + self.calendar.text(data.calendar)
    }

    fn fmt(&self, buffer: &mut String, data: &Date) {
        buffer.append("∆ ");
        self.depth.fmt(buffer, &data.depth);
        buffer.append(self.separator);
        self.calendar.fmt(buffer, &data.calendar);
        assert(buffer@ =~= old(buffer)@ + self.text(*data));
    }
}

/// Writes a date and a time of day.
pub struct TimeFormatter<'a> {
    pub date: DateFormatter<'a>,
    pub clock: ClockFormatter<'a>,
    pub separator: &'a str,
}

impl<'a> TimeFormatter<'a> {
    pub fn standard(phase_separator: &'a str, depth_style: DepthStyle, clock_precision: Option<usize>) -> (r:
        TimeFormatter<'a>)
        ensures
            r.separator@ == " / "@,
            r.date.separator@ == ": "@,
            r.date.calendar.phase.separator == phase_separator,
            r.date.calendar.phase.precision is None,
            depth_style is Short ==> r.date.depth is Year,
            depth_style is Long ==> r.date.depth is Depth && r.date.depth->Depth_0.separator@ == ": "@
                && r.date.depth->Depth_0.phase.separator == phase_separator
                && r.date.depth->Depth_0.phase.precision is None,
            forall|t: Time| #[trigger] r.text(t) == time_text(phase_separator@, depth_style, clock_precision, t),
            forall|t: Time| #[trigger] r.can_format(t) == date_can_format(depth_style, t.date),
            r.clock.phase.separator == phase_separator,
            r.clock.phase.precision == clock_precision,
    {
        TimeFormatter {
            date: DateFormatter::standard(phase_separator, depth_style),
            clock: ClockFormatter::standard(phase_separator, clock_precision),
            separator: " / ",
        }
    }
}

impl<'a> Formatter<Time> for TimeFormatter<'a> {
    open spec fn can_format(&self, data: Time) -> bool {
        self.date.can_format(data.date)
    }

    open spec fn text(&self, data: Time) -> Seq<char> {
        self.date.text(data.date) + self.separator@ + self.clock.text(data.clock)
    }

    fn fmt(&self, buffer: &mut String, data: &Time) {
        self.date.fmt(buffer, &data.date);
        buffer.append(self.separator);
        self.clock.fmt(buffer, &data.clock);
        assert(buffer@ =~= old(buffer)@ + self.text(*data));
    }
}

/// The text of a phase with `separator` between its digits, most significant first.
pub open spec fn phase_text(separator: Seq<char>, phase: Seq<int>, precision: Option<usize>) -> Seq<char> {
    joined(separator, shown_digits(phase, precision))
}

/// The text of the depth of a year in a style.
pub open spec fn depth_text(separator: Seq<char>, style: DepthStyle, depth: Depth) -> Seq<char> {
    match style {
        DepthStyle::Short => decimal(depth_year(depth.0.cycle@, phase_view(depth.0.phase))),
        DepthStyle::Long => decimal(depth.0.cycle@) + ": "@ + phase_text(
            separator,
            phase_view(depth.0.phase),
            None,
        ),
    }
}

/// The text of a day of the year.
pub open spec fn calendar_text(separator: Seq<char>, calendar: Calendar) -> Seq<char> {
    match calendar {
        Calendar::Span(span) => phase_text(separator, phase_view(span.0), None),
        Calendar::Interstice(i) => "Interstice Natural("@ + decimal(i@) + ")"@,
    }
}

/// The text of a date.
pub open spec fn date_text(separator: Seq<char>, style: DepthStyle, date: Date) -> Seq<char> {
    "∆ "@ + depth_text(separator, style, date.depth) + ": "@ + calendar_text(separator, date.calendar)
}

/// The text of a date and a time of day.
pub open spec fn time_text(separator: Seq<char>, style: DepthStyle, precision: Option<usize>, time: Time) -> Seq<
    char,
> {
    date_text(separator, style, time.date) + " / "@ + phase_text(separator, phase_view(time.clock.0), precision)
}

/// Whether a date can be written in a style: the short style makes its year.
pub open spec fn date_can_format(style: DepthStyle, date: Date) -> bool {
    style is Short ==> depth_year_fits(date.depth.0.cycle@, phase_view(date.depth.0.phase))
}

} // verus!
