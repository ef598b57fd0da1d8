use vstd::prelude::*;

use crate::cycle::{IdentityPeriodRepresentation, SimpleCycle};
use crate::integral::{group_integral, HasZero, Integer, LowerBoundedRep, Natural, Positive};
use crate::legend::PhaseLegend;
use crate::mixed::{
    lemma_simple_mixed_digits, phase_sizes, phase_view, prefix_product, radix_digits, Mixed,
    SimpleMixed,
};
use crate::units::{Day, Days, Edge, Edges};

verus! {

broadcast use group_integral;

pub type ClockType = SimpleMixed<IdentityPeriodRepresentation, SimpleCycle, 5>;

/// The sizes of the clock's digits: edge, event, moment, beat and rhythm.
pub open spec fn clock_sizes() -> Seq<int> {
    seq![2, 64, 64, 8, 16]
}

/// The number of edges in a day.
pub open spec fn edges_per_day() -> int {
    1048576
}

/// The clock's scheme: the edges of a day as edge, event, moment, beat and rhythm.
pub fn clock() -> (r: ClockType)
    ensures
        r.sizes() == clock_sizes(),
        r.is_tiled(),
        prefix_product(r.sizes(), 5) == edges_per_day(),
{
    let sizes = [
        Positive::at_least(2),
        Positive::at_least(64),
        Positive::at_least(64),
        Positive::at_least(8),
        Positive::at_least(16),
    ];
    proof {
        let s = clock_sizes();
        assert(phase_sizes(sizes) =~= s);
        assert(prefix_product(s, 0) == 1);
        assert(prefix_product(s, 1) == 2);
        assert(prefix_product(s, 2) == 128);
        assert(prefix_product(s, 3) == 8192);
        assert(prefix_product(s, 4) == 65536);
        assert(s[4] == 16);
        assert(prefix_product(s, 5) == prefix_product(s, 4) * s[4]);
        assert(prefix_product(s, 5) == 1048576);
    }
    SimpleMixed::from_simple_factors(sizes)
}

/// The names of the clock's digits.
pub open spec fn clock_legend_names() -> [&'static str; 5] {
    ["edge", "event", "moment", "beat", "rhythm"]
}

/// The names of the clock's digits.
pub fn clock_legend() -> (r: PhaseLegend<'static, 5>)
    ensures
        r.0 == clock_legend_names(),
{
    PhaseLegend::new(["edge", "event", "moment", "beat", "rhythm"])
}

/// A time of day as the clock's digits.
#[derive(Debug, PartialEq, Eq, Clone, Copy)]
pub struct Clock(pub [Natural; 5]);

/// A count of whole days and a time of day.
#[derive(Debug, PartialEq, Eq, Clone, Copy)]
pub struct ClockDuration {
    pub days: Days,
    pub clock: Clock,
}

/// A day and a time of that day.
#[derive(Debug, PartialEq, Eq, Clone, Copy)]
pub struct ClockWithDay {
    pub day: Day,
    pub clock: Clock,
}

/// Whether every digit is below its size.
pub open spec fn is_clock_phase(phase: Seq<int>) -> bool {
    forall|k: int| 0 <= k < 5 ==> #[trigger] phase[k] < clock_sizes()[k]
}

impl Clock {
    /// The time of these digits, or nothing where a digit is not below its size.
    pub fn from_phase(phase: [Natural; 5]) -> (r: Option<Clock>)
        ensures
            r is Some <==> is_clock_phase(phase_view(phase)),
            r is Some ==> r == Some(Clock(phase)),
    {
        let scheme = clock();
        match scheme.point(Integer::zero(), phase) {
            Some(b) => Some(Clock(b.phase().phase)),
            None => None,
        }
    }

    /// Each digit with the name of its position.
    pub fn name(&self) -> (r: [(&'static str, Natural); 5])
        ensures
            forall|i: int| 0 <= i < 5 ==> #[trigger] r[i] == (clock_legend_names()[i], self.0[i]),
    {
        clock_legend().name(self.0)
    }
}

impl ClockWithDay {
    pub fn new(day: Day, clock: Clock) -> (r: ClockWithDay)
        ensures
            r.day == day,
            r.clock == clock,
    {
        ClockWithDay { day, clock }
    }

    /// The day of an edge, and the time of the edge within it.
    pub fn from_edge(edge: Edge) -> (r: ClockWithDay)
        ensures
            r.day.0@ == edge.0@ / edges_per_day(),
            phase_view(r.clock.0) == radix_digits(clock_sizes(), edge.0@),
    {
        let ClockDuration { days, clock } = ClockDuration::from_edges(edge.edges());
        ClockWithDay::new(Day::new(days.0), clock)
    }
}

impl ClockDuration {
    pub fn new(days: Days, clock: Clock) -> (r: ClockDuration)
        ensures
            r.days == days,
            r.clock == clock,
    {
        ClockDuration { days, clock }
    }

    /// A count of edges as whole days and a time of day.
    pub fn from_edges(edges: Edges) -> (r: ClockDuration)
        ensures
            r.days.0@ == edges.0@ / edges_per_day(),
            phase_view(r.clock.0) == radix_digits(clock_sizes(), edges.0@),
    {
        let scheme = clock();
        let point = scheme.wind(edges.0);
        proof {
            lemma_simple_mixed_digits(&scheme, edges.0@);
        }
        ClockDuration::new(Days::new(point.point.cycle), Clock(point.phase().phase))
    }
}

} // verus!
