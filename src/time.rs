use vstd::prelude::*;

use crate::calendar::{calendar_sizes, calendar_span, Calendar};
use crate::clock::{clock_sizes, edges_per_day, Clock, ClockWithDay};
use crate::depth::{
    aeon_rest, day_depth_phase, days_per_aeon, depth_year, depth_year_fits, limited_count, Depth,
    DepthWithDay,
};
use crate::integral::{group_integral, is_i64};
use crate::mixed::{phase_view, radix_digits};
use crate::units::{Day, Edge, Year};

verus! {

broadcast use group_integral;

/// A date: the depth of its year, the year, and the day of the year.
#[derive(Debug, PartialEq, Eq, Clone, Copy)]
pub struct Date {
    pub depth: Depth,
    pub year: Year,
    pub calendar: Calendar,
}

/// A date and a time of day.
#[derive(Debug, PartialEq, Eq, Clone, Copy)]
pub struct Time {
    pub date: Date,
    pub clock: Clock,
}

/// Whether `date` is the date of `day`.
pub open spec fn is_date_of(date: Date, day: int) -> bool {
    let rest = aeon_rest(day, 3);
    &&& date.depth.0.cycle@ == day / days_per_aeon()
    &&& phase_view(date.depth.0.phase) == day_depth_phase(day)
    &&& date.year.0@ == depth_year(day / days_per_aeon(), day_depth_phase(day))
    &&& rest >= calendar_span() ==> date.calendar is Interstice && date.calendar->Interstice_0@ == rest
        - calendar_span()
    &&& rest < calendar_span() ==> date.calendar is Span && phase_view(date.calendar->Span_0.0)
        == radix_digits(calendar_sizes(), rest)
}

/// The rests of a day's aeon are at least zero, and each count is within its limit.
proof fn lemma_aeon_bounds(day: int)
    ensures
        0 <= aeon_rest(day, 0),
        0 <= aeon_rest(day, 1),
        0 <= aeon_rest(day, 2),
        0 <= aeon_rest(day, 3),
        0 <= day_depth_phase(day)[0] <= 7,
        0 <= day_depth_phase(day)[1] <= 1,
        0 <= day_depth_phase(day)[2] <= 15,
{
    vstd::arithmetic::div_mod::lemma_mod_bound(day, days_per_aeon());
    lemma_limited_count(aeon_rest(day, 0), 5844, 15);
    lemma_limited_count(aeon_rest(day, 1), 2922, 1);
    lemma_limited_count(aeon_rest(day, 2), 365, 7);
}

proof fn lemma_limited_count(total: int, size: int, limit: int)
    requires
        0 <= total,
        1 <= size,
        0 <= limit,
    ensures
        0 <= limited_count(total, size, limit) <= limit,
        0 <= total - limited_count(total, size, limit) * size,
{
    let q = limited_count(total, size, limit);
    vstd::arithmetic::div_mod::lemma_fundamental_div_mod(total, size);
    vstd::arithmetic::div_mod::lemma_mod_pos_bound(total, size);
    vstd::arithmetic::div_mod::lemma_div_pos_is_pos(total, size);
    assert(q * size <= total) by (nonlinear_arith)
        requires
            0 <= q <= total / size,
            total == size * (total / size) + total % size,
            0 <= total % size,
            size >= 1,
    ;
}

impl Date {
    pub fn new(depth: Depth, year: Year, calendar: Calendar) -> (r: Date)
        ensures
            r.depth == depth,
            r.year == year,
            r.calendar == calendar,
    {
        Date { depth, year, calendar }
    }

    /// The date of a day.
    pub fn from_day(value: Day) -> (r: Date)
        ensures
            is_date_of(r, value.0@),
    {
        let DepthWithDay { depth, day } = DepthWithDay::from_day(value);
        let calendar = Calendar::from_year_day(day);
        proof {
            let t = value.0@;
            let c = t / days_per_aeon();
            let p = day_depth_phase(t);
            lemma_aeon_bounds(t);
            vstd::arithmetic::div_mod::lemma_fundamental_div_mod(t, days_per_aeon());
            vstd::arithmetic::div_mod::lemma_mod_bound(t, days_per_aeon());
            assert(-36028797018963968 <= c <= 36028797018963967) by (nonlinear_arith)
                requires
                    t == 93502 * c + t % 93502,
                    0 <= t % 93502 < 93502,
                    is_i64(t),
            ;
            assert(depth_year_fits(c, p));
        }
        let year = Year::from_depth(&depth);
        Date::new(depth, year, calendar)
    }
}

impl Time {
    pub fn new(date: Date, clock: Clock) -> (r: Time)
        ensures
            r.date == date,
            r.clock == clock,
    {
        Time { date, clock }
    }

    /// The date and time of an edge.
    pub fn from_edge(value: Edge) -> (r: Time)
        ensures
            is_date_of(r.date, value.0@ / edges_per_day()),
            phase_view(r.clock.0) == radix_digits(clock_sizes(), value.0@),
    {
        let ClockWithDay { day, clock } = ClockWithDay::from_edge(value);
        let date = Date::from_day(day);
        Time::new(date, clock)
    }
}

} // verus!
