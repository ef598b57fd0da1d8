use vstd::prelude::*;

use crate::cycle::{Cycle, IdentityPeriodRepresentation, LimitedCycle, Period, SimpleCycle};
use crate::filter::{Filter, SimpleFilter};
use crate::integral::{group_integral, is_i64, ConstrainedRep, Integer, LowerBoundedRep, Positive};
use crate::legend::PhaseLegend;
use crate::mixed::{
    lemma_simple_mixed_digits, phase_sizes, phase_view, prefix_product, radix_digits, Mixed,
    MixedPoint, MixedPointLegend, SimpleMixed,
};
use crate::units::{Day, Year, YearDay};

verus! {

broadcast use group_integral;

pub type DepthType = SimpleMixed<IdentityPeriodRepresentation, SimpleCycle, 3>;

pub type DepthDaysType = SimpleFilter<IdentityPeriodRepresentation, LimitedCycle, 3>;

/// The sizes of the digits of a year: unade, octade and hexade.
pub open spec fn depth_sizes() -> Seq<int> {
    seq![8, 2, 16]
}

/// The number of years in an aeon.
pub open spec fn years_per_aeon() -> int {
    256
}

/// The number of days in an aeon.
pub open spec fn days_per_aeon() -> int {
    93502
}

/// The scheme of years: unade, octade and hexade, within aeons.
pub fn depth_years() -> (r: DepthType)
    ensures
        r.sizes() == depth_sizes(),
        r.is_tiled(),
        r.period.size_spec() == years_per_aeon(),
{
    let sizes = [Positive::at_least(8), Positive::at_least(2), Positive::at_least(16)];
    proof {
        let s = depth_sizes();
        assert(phase_sizes(sizes) =~= s);
        assert(prefix_product(s, 0) == 1);
        assert(prefix_product(s, 1) == 8);
        assert(prefix_product(s, 2) == 16);
        assert(prefix_product(s, 3) == 256);
    }
    SimpleMixed::from_simple_factors(sizes)
}

/// The names of the outer count and the digits of a year.
pub fn depth_legend() -> (r: MixedPointLegend<'static, 3>)
    ensures
        r.cycle == "aeon",
        r.phase.0 == ["unade", "octade", "hexade"],
{
    MixedPointLegend::with_names("aeon", ["unade", "octade", "hexade"])
}

/// The scheme of days: hexades, octades and years within aeons, the last of each limited,
/// and the day of the year left over.
pub fn depth_days() -> (r: DepthDaysType)
    ensures
        r.period.size_spec() == days_per_aeon(),
        r.factors[0].size_spec() == 5844 && r.factors[0].limit_spec() == 15,
        r.factors[1].size_spec() == 2922 && r.factors[1].limit_spec() == 1,
        r.factors[2].size_spec() == 365 && r.factors[2].limit_spec() == 7,
{
    SimpleFilter::new(
        Period::new(Positive::at_least(93502)),
        [
            LimitedCycle::new(Positive::at_least(5844), Positive::at_least(15)),
            LimitedCycle::new(Positive::at_least(2922), Positive::at_least(1)),
            LimitedCycle::new(Positive::at_least(365), Positive::at_least(7)),
        ],
    )
}

/// The whole cycles that a cycle of `size`, limited to `limit`, takes of `total`.
pub open spec fn limited_count(total: int, size: int, limit: int) -> int {
    if total / size <= limit {
        total / size
    } else {
        limit
    }
}

/// What is left of the days of an aeon after the first `k` reductions.
pub open spec fn aeon_rest(day: int, k: int) -> int
    decreases k,
{
    if k <= 0 {
        day % days_per_aeon()
    } else {
        let c = aeon_rest(day, k - 1);
        let (size, limit) = if k == 1 {
            (5844int, 15int)
        } else if k == 2 {
            (2922int, 1int)
        } else {
            (365int, 7int)
        };
        c - limited_count(c, size, limit) * size
    }
}

/// The digits of the year of a day: unade, octade and hexade.
pub open spec fn day_depth_phase(day: int) -> Seq<int> {
    seq![
        limited_count(aeon_rest(day, 2), 365, 7),
        limited_count(aeon_rest(day, 1), 2922, 1),
        limited_count(aeon_rest(day, 0), 5844, 15),
    ]
}

/// The year that an aeon and the digits of a year make.
pub open spec fn depth_year(cycle: int, phase: Seq<int>) -> int {
    ((cycle * 16 + phase[2]) * 2 + phase[1]) * 8 + phase[0]
}

/// Whether making the year stays within the machine's integers.
pub open spec fn depth_year_fits(cycle: int, phase: Seq<int>) -> bool {
    &&& is_i64(cycle * 16)
    &&& is_i64(cycle * 16 + phase[2])
    &&& is_i64((cycle * 16 + phase[2]) * 2)
    &&& is_i64((cycle * 16 + phase[2]) * 2 + phase[1])
    &&& is_i64(((cycle * 16 + phase[2]) * 2 + phase[1]) * 8)
    &&& is_i64(depth_year(cycle, phase))
}

/// A year as an aeon and the digits of the year within it.
#[derive(Debug, PartialEq, Eq, Clone, Copy)]
pub struct Depth(pub MixedPoint<3, Integer>);

/// The depth of a day's year, and the day within that year.
#[derive(Debug, PartialEq, Eq, Clone, Copy)]
pub struct DepthWithDay {
    pub depth: Depth,
    pub day: YearDay,
}

impl Depth {
    pub fn new(point: MixedPoint<3, Integer>) -> (r: Depth)
        ensures
            r.0 == point,
    {
        Depth(point)
    }

    /// The depth of a year.
    pub fn from_year(year: Year) -> (r: Depth)
        ensures
            r.0.cycle@ == year.0@ / years_per_aeon(),
            phase_view(r.0.phase) == radix_digits(depth_sizes(), year.0@),
    {
        let scheme = depth_years();
        let point = scheme.wind(year.0);
        proof {
            lemma_simple_mixed_digits(&scheme, year.0@);
        }
        Depth(point.point)
    }
}

impl Depth {
    /// Whether making the year of this depth stays within the machine's integers.
    pub fn year_fits(&self) -> (r: bool)
        ensures
            r == depth_year_fits(self.0.cycle@, phase_view(self.0.phase)),
    {
        let c = self.0.cycle.out() as i128;
        let a = c * 16;
        let b = a + self.0.phase[2].out() as i128;
        let d = b * 2;
        let e = d + self.0.phase[1].out() as i128;
        let f = e * 8;
        let g = f + self.0.phase[0].out() as i128;
        let lo = i64::MIN as i128;
        let hi = i64::MAX as i128;
        lo <= a && a <= hi && lo <= b && b <= hi && lo <= d && d <= hi && lo <= e && e <= hi && lo <= f
            && f <= hi && lo <= g && g <= hi
    }
}

impl Year {
    /// The year of a depth.
    pub fn from_depth(depth: &Depth) -> (r: Year)
        requires
            depth_year_fits(depth.0.cycle@, phase_view(depth.0.phase)),
        ensures
            r.0@ == depth_year(depth.0.cycle@, phase_view(depth.0.phase)),
    {
        let scheme = depth_years();
        let ghost c = depth.0.cycle@;
        let ghost p = phase_view(depth.0.phase);
        proof {
            let s = scheme.sizes();
            assert(s[0] == 8 && s[1] == 2 && s[2] == 16);
            assert(scheme.factors[0].size_spec() == 8);
            assert(scheme.factors[1].size_spec() == 2);
            assert(scheme.factors[2].size_spec() == 16);
            assert(scheme.unwound(c, p, 3) == c);
            assert(scheme.unwound(c, p, 2) == c * 16 + p[2]);
            assert(scheme.unwound(c, p, 1) == (c * 16 + p[2]) * 2 + p[1]);
            assert(scheme.unwound(c, p, 0) == depth_year(c, p));
        }
        Year(scheme.unwind(&depth.0))
    }
}

impl DepthWithDay {
    pub fn new(depth: Depth, day: YearDay) -> (r: DepthWithDay)
        ensures
            r.depth == depth,
            r.day == day,
    {
        DepthWithDay { depth, day }
    }

    /// The depth of a day's year, and the day within that year.
    pub fn from_day(day: Day) -> (r: DepthWithDay)
        ensures
            r.depth.0.cycle@ == day.0@ / days_per_aeon(),
            phase_view(r.depth.0.phase) == day_depth_phase(day.0@),
            r.day.0@ == aeon_rest(day.0@, 3),
    {
        let scheme = depth_days();
        let point = scheme.wind(day.0);
        proof {
            let t = day.0@;
            assert(scheme.carry(t, 0) == aeon_rest(t, 0));
            assert(scheme.carry(t, 1) == aeon_rest(t, 1));
            assert(scheme.carry(t, 2) == aeon_rest(t, 2));
            assert(scheme.carry(t, 3) == aeon_rest(t, 3));
            assert(scheme.wind_phase(t) =~= day_depth_phase(t));
        }
        DepthWithDay::new(Depth(point.point.point), YearDay::new(point.point.remainder))
    }
}

} // verus!
