use mixed_point::calendar::{Calendar, Span};
use mixed_point::clock::Clock;
use mixed_point::depth::Depth;
use mixed_point::formatting::{ConstrainedRepFormatter, Formatter, IntegerFormatter, MixedPointFormatter, PhaseFormatter};
use mixed_point::integral::{Integer, LowerBoundedRep, Natural};
use mixed_point::mixed::MixedPoint;
use mixed_point::output::{write_date, write_time, DateOptions, OutputSpec, TimeOptions};
use mixed_point::time::{Date, Time};
use mixed_point::time_format::{CalendarFormatter, ClockFormatter, DateFormatter, DepthStyle, TimeFormatter};
use mixed_point::units::{Day, Edge, Year};

fn natural(x: i64) -> Natural {
    Natural::at_least(x)
}

#[test]
fn phase_text_most_significant_first() {
    let f = PhaseFormatter::standard(".");
    assert_eq!("3.2.1", f.format(&[natural(1), natural(2), natural(3)]));
    let f = PhaseFormatter::standard_with_precision("-", Some(2));
    assert_eq!("3-2", f.format(&[natural(1), natural(2), natural(3)]));
    let f = PhaseFormatter::standard_with_precision("-", Some(9));
    assert_eq!("30-20-10", f.format(&[natural(10), natural(20), natural(30)]));
    let empty: [Natural; 0] = [];
    assert_eq!("", PhaseFormatter::standard(".").format(&empty));
}

#[test]
fn point_text() {
    let integers: IntegerFormatter = ConstrainedRepFormatter::new();
    let f = MixedPointFormatter::new(": ", integers, PhaseFormatter::standard(","));
    assert_eq!("-12: 5,0", f.format(&MixedPoint::new(Integer::new(-12), [natural(0), natural(5)])));
    let integers: IntegerFormatter = ConstrainedRepFormatter::new();
    assert_eq!("-9223372036854775808", integers.format(&Integer::new(i64::MIN)));
}

#[test]
fn calendar_and_clock_text() {
    let span = Calendar::Span(Span::from_phase([natural(1), natural(2), natural(0), natural(3)]).unwrap());
    assert_eq!("3 ∘ 0 ∘ 2 ∘ 1", CalendarFormatter::standard(" ∘ ").format(&span));
    assert_eq!("Interstice Natural(4)", CalendarFormatter::standard(" ∘ ").format(&Calendar::Interstice(natural(4))));
    let clock = Clock::from_phase([natural(1), natural(6), natural(1), natural(0), natural(0)]).unwrap();
    assert_eq!("0:0:1:6:1", ClockFormatter::standard(":", None).format(&clock));
    assert_eq!("0:0", ClockFormatter::standard(":", Some(2)).format(&clock));
}

#[test]
fn date_and_time_text() {
    let date = Date::from_day(Day::new(Integer::new(365 + 10)));
    assert_eq!("∆ 1: 0 ∘ 0 ∘ 1 ∘ 2", write_date(&date, DepthStyle::Short));
    assert_eq!("∆ 0: 0 ∘ 0 ∘ 1: 0 ∘ 0 ∘ 1 ∘ 2", write_date(&date, DepthStyle::Long));
    let time = Time::from_edge(Edge::new(Integer::new(141)));
    assert_eq!("∆ 0: 0 ∘ 0 ∘ 0 ∘ 0 / 0 ∘ 0 ∘ 1 ∘ 6 ∘ 1", write_time(&time, DepthStyle::Short, None));
    assert_eq!("∆ 0: 0 ∘ 0 ∘ 0 ∘ 0 / 0", write_time(&time, DepthStyle::Short, Some(1)));
    let depth = Depth::new(MixedPoint::new(Integer::new(2), [natural(3), natural(1), natural(5)]));
    assert_eq!(Year::new(Integer::new(603)), Year::from_depth(&depth));
    let calendar = Calendar::Span(Span::from_phase([natural(0), natural(0), natural(0), natural(0)]).unwrap());
    let custom = Date::new(depth, Year::from_depth(&depth), calendar);
    assert_eq!("∆ 603: 0.0.0.0", DateFormatter::standard(".", DepthStyle::Short).format(&custom));
    let f = TimeFormatter::standard(".", DepthStyle::Long, Some(3));
    assert_eq!("∆ 0: 0.0.0: 0.0.0.0 / 0.0.1", f.format(&time));
}

#[test]
fn options_from_flags() {
    assert_eq!(OutputSpec::Json, OutputSpec::from_flags(true, true, true, Some(3)));
    assert_eq!(
        OutputSpec::Time { date: DateOptions { style: DepthStyle::Long }, time: TimeOptions::FullWithFraction },
        OutputSpec::from_flags(false, true, true, Some(3))
    );
    assert_eq!(
        OutputSpec::Time { date: DateOptions { style: DepthStyle::Short }, time: TimeOptions::Precision(3) },
        OutputSpec::from_flags(false, false, false, Some(3))
    );
    assert_eq!(TimeOptions::Full, TimeOptions::from_flags(false, None));
    assert_eq!(OutputSpec::Date(DateOptions { style: DepthStyle::Short }), OutputSpec::from_date_flags(false));
    assert_eq!(DateOptions { style: DepthStyle::Long }, DateOptions::from_flags(true));
}
