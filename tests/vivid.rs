use mixed_point::calendar::{Calendar, Span};
use mixed_point::clock::{Clock, ClockDuration, ClockWithDay};
use mixed_point::depth::{Depth, DepthWithDay};
use mixed_point::integral::{Integer, LowerBoundedRep, Natural};
use mixed_point::mixed::MixedPoint;
use mixed_point::time::{Date, Time};
use mixed_point::units::{Day, Days, Edge, Edges, Year, YearDay};

fn integer(x: i64) -> Integer {
    Integer::new(x)
}

fn natural(x: i64) -> Natural {
    Natural::at_least(x)
}

fn cons_span(phase: [Natural; 4]) -> Calendar {
    Calendar::Span(Span::from_phase(phase).expect("Bad phase given"))
}

#[test]
fn calendar_calendar() {
    assert_eq!(Calendar::Interstice(natural(0)), Calendar::from_year_day(YearDay::new(natural(360))));
    assert_eq!(Calendar::Interstice(natural(5)), Calendar::from_year_day(YearDay::new(natural(365))));
    assert_eq!(Calendar::Interstice(natural(10)), Calendar::from_year_day(YearDay::new(natural(370))));
    assert_eq!(cons_span([natural(0), natural(0), natural(0), natural(0)]), Calendar::from_year_day(YearDay::new(natural(0))));
    assert_eq!(cons_span([natural(2), natural(1), natural(0), natural(0)]), Calendar::from_year_day(YearDay::new(natural(10))));
    assert_eq!(cons_span([natural(7), natural(2), natural(2), natural(4)]), Calendar::from_year_day(YearDay::new(natural(359))));
}

#[test]
fn span_rejects_out_of_range_digits() {
    assert_eq!(None, Span::from_phase([natural(8), natural(0), natural(0), natural(0)]));
    assert_eq!(None, Span::from_phase([natural(0), natural(0), natural(0), natural(5)]));
    assert_eq!(Err(natural(1)), Span::fill_phase(YearDay::new(natural(361))));
    let span = Span::from_phase([natural(1), natural(2), natural(0), natural(3)]).unwrap();
    assert_eq!(
        [("point", natural(1)), ("arc", natural(2)), ("spoke", natural(0)), ("period", natural(3))],
        span.name()
    );
}

fn cons_days_clock(days: Integer, phase: [Natural; 5]) -> ClockDuration {
    ClockDuration::new(Days::new(days), Clock::from_phase(phase).expect("Improper phase"))
}

#[test]
fn clock_calendar() {
    assert_eq!(cons_days_clock(integer(0), [natural(0), natural(0), natural(0), natural(0), natural(0)]), ClockDuration::from_edges(Edges::new(integer(0))));
    assert_eq!(cons_days_clock(integer(0), [natural(1), natural(0), natural(0), natural(0), natural(0)]), ClockDuration::from_edges(Edges::new(integer(1))));
    assert_eq!(cons_days_clock(integer(0), [natural(1), natural(6), natural(1), natural(0), natural(0)]), ClockDuration::from_edges(Edges::new(integer(141))));
}

#[test]
fn clock_of_negative_edge() {
    let last = [natural(1), natural(63), natural(63), natural(7), natural(15)];
    assert_eq!(cons_days_clock(integer(-1), last), ClockDuration::from_edges(Edges::new(integer(-1))));
    let with_day = ClockWithDay::from_edge(Edge::new(integer(1048576 + 2)));
    assert_eq!(ClockWithDay::new(Day::new(integer(1)), Clock::from_phase([natural(0), natural(1), natural(0), natural(0), natural(0)]).unwrap()), with_day);
    assert_eq!(None, Clock::from_phase([natural(2), natural(0), natural(0), natural(0), natural(0)]));
    let clock = Clock::from_phase(last).unwrap();
    assert_eq!(("rhythm", natural(15)), clock.name()[4]);
}

fn cons_depth(aeons: Integer, phase: [Natural; 3]) -> Depth {
    Depth::new(MixedPoint::new(aeons, phase))
}

fn cons_depth_with_day(aeons: Integer, phase: [Natural; 3], day: Natural) -> DepthWithDay {
    DepthWithDay::new(cons_depth(aeons, phase), YearDay::new(day))
}

#[test]
fn depth_years() {
    assert_eq!(cons_depth(integer(0), [natural(0), natural(0), natural(0)]), Depth::from_year(Year::new(integer(0))));
    assert_eq!(cons_depth(integer(2), [natural(3), natural(1), natural(5)]), Depth::from_year(Year::new(integer(603))));
    assert_eq!(cons_depth(integer(-1), [natural(7), natural(1), natural(15)]), Depth::from_year(Year::new(integer(-1))));
}

#[test]
fn years_from_depth() {
    assert_eq!(Year::new(integer(0)), Year::from_depth(&cons_depth(integer(0), [natural(0), natural(0), natural(0)])));
    assert_eq!(Year::new(integer(603)), Year::from_depth(&cons_depth(integer(2), [natural(3), natural(1), natural(5)])));
    assert_eq!(Year::new(integer(-1)), Year::from_depth(&cons_depth(integer(-1), [natural(7), natural(1), natural(15)])));
}

#[test]
fn depth_day() {
    assert_eq!(cons_depth_with_day(integer(0), [natural(0), natural(0), natural(0)], natural(0)), DepthWithDay::from_day(Day::new(integer(0))));
    assert_eq!(cons_depth_with_day(integer(0), [natural(0), natural(0), natural(0)], natural(1)), DepthWithDay::from_day(Day::new(integer(1))));
    assert_eq!(cons_depth_with_day(integer(0), [natural(0), natural(0), natural(0)], natural(364)), DepthWithDay::from_day(Day::new(integer(364))));
    assert_eq!(cons_depth_with_day(integer(0), [natural(1), natural(0), natural(0)], natural(0)), DepthWithDay::from_day(Day::new(integer(365))));
    assert_eq!(cons_depth_with_day(integer(0), [natural(7), natural(0), natural(0)], natural(365)), DepthWithDay::from_day(Day::new(integer(2920))));
    assert_eq!(cons_depth_with_day(integer(0), [natural(7), natural(0), natural(0)], natural(366)), DepthWithDay::from_day(Day::new(integer(2921))));
    assert_eq!(cons_depth_with_day(integer(0), [natural(0), natural(1), natural(0)], natural(0)), DepthWithDay::from_day(Day::new(integer(2922))));
    assert_eq!(cons_depth_with_day(integer(-1), [natural(7), natural(1), natural(15)], natural(364)), DepthWithDay::from_day(Day::new(integer(-1))));
}

#[test]
fn year_fits_checks_overflow() {
    assert!(cons_depth(integer(2), [natural(3), natural(1), natural(5)]).year_fits());
    assert!(!cons_depth(integer(i64::MAX / 16 + 1), [natural(0), natural(0), natural(0)]).year_fits());
    assert!(!cons_depth(integer(0), [natural(0), natural(0), natural(i64::MAX)]).year_fits());
}

#[test]
fn date_and_time_of_an_edge() {
    let time = Time::from_edge(Edge::new(integer(365 * 1048576 + 141)));
    let date = Date::from_day(Day::new(integer(365)));
    assert_eq!(date, time.date);
    assert_eq!(cons_depth(integer(0), [natural(1), natural(0), natural(0)]), date.depth);
    assert_eq!(Year::new(integer(1)), date.year);
    assert_eq!(cons_span([natural(0), natural(0), natural(0), natural(0)]), date.calendar);
    assert_eq!(Clock::from_phase([natural(1), natural(6), natural(1), natural(0), natural(0)]).unwrap(), time.clock);
}
