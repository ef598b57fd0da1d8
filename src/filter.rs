use vstd::prelude::*;

use crate::cycle::{Cycle, CyclePoint, Period, PeriodRepresentation};
use crate::integral::{group_integral, is_i64, HasZero, Integer, Natural};
use crate::mixed::{lemma_sizes_positive, phase_view, MixedPoint};

verus! {

broadcast use group_integral;

/// A point of a scheme whose usable span is smaller than its period: the digits, and the
/// excess that falls outside every digit.
#[derive(Debug, PartialEq, Eq, Clone, Copy)]
pub struct FilterPoint<const N: usize, Cycle> {
    pub point: MixedPoint<N, Cycle>,
    pub remainder: Natural,
}

/// A filter point that has been checked against its scheme.
#[derive(Debug, PartialEq, Eq, Clone, Copy)]
pub struct BoundFilterPoint<'a, const N: usize, P: Filter<N>> {
    pub schema: &'a P,
    pub point: FilterPoint<N, P::Cycle>,
}

impl<const N: usize, Cycle> FilterPoint<N, Cycle> {
    pub fn new(point: MixedPoint<N, Cycle>, remainder: Natural) -> (r: FilterPoint<N, Cycle>)
        ensures
            r.point == point,
            r.remainder == remainder,
    {
        FilterPoint { point, remainder }
    }
}

impl<'a, const N: usize, P: Filter<N>> BoundFilterPoint<'a, N, P> {
    pub fn new(schema: &'a P, point: FilterPoint<N, P::Cycle>) -> (r: BoundFilterPoint<'a, N, P>)
        ensures
            r.schema == schema,
            r.point == point,
    {
        BoundFilterPoint { schema, point }
    }
}

/// A scheme that splits a total into an outer count, digits and a remainder.
pub trait Filter<const N: usize>: Sized {
    type Cycle: View<V = int> + Copy;

    spec fn is_norm_spec(&self, cycle: int, phase: Seq<int>, remainder: int) -> bool;

    /// The outer count that winding `total` gives.
    spec fn wind_cycle(&self, total: int) -> int;

    /// The digits that winding `total` gives.
    spec fn wind_phase(&self, total: int) -> Seq<int>;

    /// The remainder that winding `total` gives.
    spec fn wind_remainder(&self, total: int) -> int;

    /// The total that a point puts back together into.
    spec fn unwind_spec(&self, cycle: int, phase: Seq<int>, remainder: int) -> int;

    /// Whether putting the point back together stays within the machine's integers.
    spec fn unwind_req(&self, cycle: int, phase: Seq<int>, remainder: int) -> bool;

    fn is_norm(&self, point: &FilterPoint<N, Self::Cycle>) -> (r: bool)
        ensures
            r == self.is_norm_spec(point.point.cycle@, phase_view(point.point.phase), point.remainder@),
    ;

    fn wind_inner(&self, total: &Self::Cycle) -> (r: FilterPoint<N, Self::Cycle>)
        ensures
            r.point.cycle@ == self.wind_cycle(total@),
            phase_view(r.point.phase) == self.wind_phase(total@),
            r.remainder@ == self.wind_remainder(total@),
    ;

    fn unwind(&self, point: &FilterPoint<N, Self::Cycle>) -> (r: Self::Cycle)
        requires
            self.unwind_req(point.point.cycle@, phase_view(point.point.phase), point.remainder@),
        ensures
            r@ == self.unwind_spec(point.point.cycle@, phase_view(point.point.phase), point.remainder@),
    ;

    /// The point with these coordinates bound to this scheme, or nothing where it is not valid.
    fn point<'a>(&'a self, cycle: Self::Cycle, phase: [Natural; N], remainder: Natural) -> (r: Option<
        BoundFilterPoint<'a, N, Self>,
    >)
        ensures
            r is Some <==> self.is_norm_spec(cycle@, phase_view(phase), remainder@),
            r is Some ==> r->0.schema == self && r->0.point.point.cycle == cycle
                && r->0.point.point.phase == phase && r->0.point.remainder == remainder,
    {
        let point = MixedPoint::new(cycle, phase);
        let filter_point = FilterPoint::new(point, remainder);
        if self.is_norm(&filter_point) {
            Some(BoundFilterPoint { schema: self, point: filter_point })
        } else {
            None
        }
    }

    /// Splits `total` into a point bound to this scheme.
    fn wind<'a>(&'a self, total: Self::Cycle) -> (r: BoundFilterPoint<'a, N, Self>)
        ensures
            r.schema == self,
            r.point.point.cycle@ == self.wind_cycle(total@),
            phase_view(r.point.point.phase) == self.wind_phase(total@),
            r.point.remainder@ == self.wind_remainder(total@),
    {
        BoundFilterPoint { schema: self, point: self.wind_inner(&total) }
    }
}

/// A filter of one outer period and one cycle per digit. The first reduction fills the last
/// digit: digit 0 is the most significant below the outer count.
#[derive(Debug, PartialEq, Eq, Clone)]
pub struct SimpleFilter<R: PeriodRepresentation, C: Cycle<Cycles = Natural>, const N: usize> {
    pub period: Period<R>,
    pub factors: [C; N],
}

impl<R: PeriodRepresentation, C: Cycle<Cycles = Natural>, const N: usize> SimpleFilter<R, C, N> {
    pub fn new(period: Period<R>, factors: [C; N]) -> (r: SimpleFilter<R, C, N>)
        ensures
            r.period == period,
            r.factors == factors,
    {
        SimpleFilter { period, factors }
    }

    /// What is left to reduce after the first `k` factors have taken their whole cycles.
    pub open spec fn carry(&self, total: int, k: nat) -> int
        decreases k,
    {
        if k == 0 {
            total % self.period.size_spec()
        } else {
            let c = self.carry(total, (k - 1) as nat);
            c - self.factors[k - 1].wind_cycle(c) * self.factors[k - 1].size_spec()
        }
    }

    /// The count of whole cycles that factor `k` takes.
    pub open spec fn count(&self, total: int, k: int) -> int {
        self.factors[k].wind_cycle(self.carry(total, k as nat))
    }

    /// The digits of `phase` from factor `k` on, each times its factor's size, plus `remainder`.
    pub open spec fn filled(&self, phase: Seq<int>, remainder: int, k: int) -> int
        decreases N - k,
    {
        if k >= N {
            remainder
        } else {
            phase[N - 1 - k] * self.factors[k].size_spec() + self.filled(phase, remainder, k + 1)
        }
    }
}

impl<R: PeriodRepresentation, C: Cycle<Cycles = Natural>, const N: usize> Filter<N> for SimpleFilter<
    R,
    C,
    N,
> {
    type Cycle = Integer;

    /// Every point is admitted: a filter point carries what overflows its digits in its
    /// remainder.
    open spec fn is_norm_spec(&self, cycle: int, phase: Seq<int>, remainder: int) -> bool {
        true
    }

    open spec fn wind_cycle(&self, total: int) -> int {
        total / self.period.size_spec()
    }

    open spec fn wind_phase(&self, total: int) -> Seq<int> {
        Seq::new(N as nat, |i: int| self.count(total, N - 1 - i))
    }

    open spec fn wind_remainder(&self, total: int) -> int {
        self.carry(total, N as nat)
    }

    open spec fn unwind_spec(&self, cycle: int, phase: Seq<int>, remainder: int) -> int {
        cycle * self.period.size_spec() + self.filled(phase, remainder, 0)
    }

    open spec fn unwind_req(&self, cycle: int, phase: Seq<int>, remainder: int) -> bool {
        &&& self.filled(phase, remainder, 0) <= i64::MAX
        &&& is_i64(cycle * self.period.size_spec())
        &&& is_i64(cycle * self.period.size_spec() + self.filled(phase, remainder, 0))
    }

    fn is_norm(&self, point: &FilterPoint<N, Integer>) -> (r: bool) {
        true
    }

    fn wind_inner(&self, total: &Integer) -> (r: FilterPoint<N, Integer>) {
        let outer = self.period.wind(total).point;
        proof {
            self.period.lemma_size();
            vstd::arithmetic::div_mod::lemma_fundamental_div_mod_converse(
                total@,
                self.period.size_spec(),
                outer.cycle@,
                outer.phase@,
            );
        }
        let mut phase = outer.phase;
        let mut phases: [Natural; N] = [Natural::zero(); N];
        let mut k: usize = 0;
        while k < N
            invariant
                k <= N,
                phase@ == self.carry(total@, k as nat),
                forall|j: int| 0 <= j < k ==> #[trigger] phases[N - 1 - j]@ == self.count(total@, j),
            decreases N - k,
        {
            let point = self.factors[k].wind(&phase).point;
            phases[N - k - 1] = point.cycle;
            phase = point.phase;
            k = k + 1;
        }
        let r = FilterPoint::new(MixedPoint::new(outer.cycle, phases), phase);
        assert forall|i: int| 0 <= i < N implies phase_view(r.point.phase)[i] == self.wind_phase(
            total@,
        )[i] by {
            assert(phases[N - 1 - (N - 1 - i)]@ == self.count(total@, N - 1 - i));
        }
        assert(phase_view(r.point.phase) =~= self.wind_phase(total@));
        r
    }

    fn unwind(&self, point: &FilterPoint<N, Integer>) -> (r: Integer) {
        let ghost phase = phase_view(point.point.phase);
        let ghost rem = point.remainder@;
        let mut filled = point.remainder;
        let mut k: usize = N;
        proof {
            assert forall|j: int| 0 <= j < N implies #[trigger] phase[j] >= 0 by {}
            lemma_sizes_positive(self.factors);
            self.lemma_filled_bounds(phase, rem, N as int);
        }
        while k > 0
            invariant
                k <= N,
                phase == phase_view(point.point.phase),
                rem == point.remainder@,
                filled@ == self.filled(phase, rem, k as int),
                forall|j: int| 0 <= j < N ==> #[trigger] phase[j] >= 0,
                forall|j: int| 0 <= j < N ==> #[trigger] self.factors[j].size_spec() >= 1,
                self.unwind_req(point.point.cycle@, phase, rem),
            decreases k,
        {
            k = k - 1;
            proof {
                self.lemma_filled_bounds(phase, rem, k as int);
                let d = phase[N - 1 - k];
                let s = self.factors[k as int].size_spec();
                assert(0 <= d * s) by (nonlinear_arith)
                    requires
                        d >= 0,
                        s >= 1,
                ;
            }
            let term = point.point.phase[N - 1 - k].mul_positive(self.factors[k].size());
            filled = term.add(filled);
        }
        let r = self.period.unwind(&CyclePoint::new(point.point.cycle, filled));
        r
    }
}

impl<R: PeriodRepresentation, C: Cycle<Cycles = Natural>, const N: usize> SimpleFilter<R, C, N> {
    proof fn lemma_filled_bounds(&self, phase: Seq<int>, remainder: int, k: int)
        requires
            0 <= k <= N,
            remainder >= 0,
            forall|j: int| 0 <= j < N ==> #[trigger] phase[j] >= 0,
            forall|j: int| 0 <= j < N ==> #[trigger] self.factors[j].size_spec() >= 1,
        ensures
            0 <= self.filled(phase, remainder, k) <= self.filled(phase, remainder, 0),
        decreases N - k,
    {
        if k < N {
            self.lemma_filled_bounds(phase, remainder, k + 1);
            let d = phase[N - 1 - k];
            let s = self.factors[k].size_spec();
            assert(0 <= d * s) by (nonlinear_arith)
                requires
                    d >= 0,
                    s >= 1,
            ;
        }
        self.lemma_filled_prefix(phase, remainder, k);
    }

    proof fn lemma_filled_prefix(&self, phase: Seq<int>, remainder: int, k: int)
        requires
            0 <= k <= N,
            remainder >= 0,
            forall|j: int| 0 <= j < N ==> #[trigger] phase[j] >= 0,
            forall|j: int| 0 <= j < N ==> #[trigger] self.factors[j].size_spec() >= 1,
        ensures
            self.filled(phase, remainder, k) <= self.filled(phase, remainder, 0),
        decreases k,
    {
        if k > 0 {
            self.lemma_filled_prefix(phase, remainder, k - 1);
            let d = phase[N - 1 - (k - 1)];
            let s = self.factors[k - 1].size_spec();
            assert(0 <= d * s) by (nonlinear_arith)
                requires
                    d >= 0,
                    s >= 1,
            ;
        }
    }
}

impl<R: PeriodRepresentation, C: Cycle<Cycles = Natural>, const N: usize> SimpleFilter<R, C, N> {
    /// The wound digits from factor `k` on, each times its size, plus the remainder, make
    /// up the carry at `k`.
    proof fn lemma_filled_carry(&self, total: int, k: int)
        requires
            0 <= k <= N,
        ensures
            self.filled(self.wind_phase(total), self.wind_remainder(total), k) == self.carry(
                total,
                k as nat,
            ),
        decreases N - k,
    {
        if k < N {
            self.lemma_filled_carry(total, k + 1);
            assert(self.wind_phase(total)[N - 1 - k] == self.count(total, N - 1 - (N - 1 - k)));
        }
    }
}

/// Winding a non-negative total with a filter and unwinding the point gives the total back;
/// putting it back together stays within the machine's integers.
pub proof fn lemma_filter_round_trip<R: PeriodRepresentation, C: Cycle<Cycles = Natural>, const N: usize>(
    scheme: &SimpleFilter<R, C, N>,
    total: int,
)
    requires
        0 <= total <= i64::MAX,
    ensures
        scheme.unwind_req(scheme.wind_cycle(total), scheme.wind_phase(total), scheme.wind_remainder(total)),
        scheme.unwind_spec(scheme.wind_cycle(total), scheme.wind_phase(total), scheme.wind_remainder(total))
            == total,
{
    let p = scheme.period.size_spec();
    let q = scheme.wind_cycle(total);
    scheme.period.lemma_size();
    vstd::arithmetic::div_mod::lemma_fundamental_div_mod(total, p);
    vstd::arithmetic::div_mod::lemma_mod_pos_bound(total, p);
    vstd::arithmetic::div_mod::lemma_div_pos_is_pos(total, p);
    scheme.lemma_filled_carry(total, 0);
    assert(0 <= q * p <= total) by (nonlinear_arith)
        requires
            0 <= q,
            1 <= p,
            total == p * q + total % p,
            0 <= total % p,
    ;
}

} // verus!
