use vstd::prelude::*;

use core::marker::PhantomData;

use crate::integral::{group_integral, is_i64, ConstrainedRep, Integer, LowerBoundedRep, Natural, Positive};
use crate::rational::{Real, WithFraction};

verus! {

broadcast use group_integral;

/// One digit's decomposition of a total: a count of whole cycles and a phase within the cycle.
#[derive(Debug, PartialEq, Eq, Clone, Copy)]
pub struct CyclePoint<Cycles> {
    pub cycle: Cycles,
    pub phase: Natural,
}

impl<Cycles> CyclePoint<Cycles> {
    pub fn new(cycle: Cycles, phase: Natural) -> (r: CyclePoint<Cycles>)
        ensures
            r.cycle == cycle,
            r.phase == phase,
    {
        CyclePoint { cycle, phase }
    }
}

/// A point that has been checked against the scheme it refers to.
#[derive(Debug, PartialEq, Eq)]
pub struct BoundCyclePoint<'a, C: Cycle> {
    pub scheme: &'a C,
    pub point: CyclePoint<C::Cycles>,
}

impl<'a, C: Cycle> BoundCyclePoint<'a, C> {
    pub fn new(scheme: &'a C, point: CyclePoint<C::Cycles>) -> (r: BoundCyclePoint<'a, C>)
        ensures
            r.scheme == scheme,
            r.point == point,
    {
        BoundCyclePoint { scheme, point }
    }
}

/// A single-digit reduction: a modulus, and the rules that split a total into whole
/// cycles and a phase and put them back together.
pub trait Cycle: Sized {
    type Cycles: View<V = int> + Copy;

    /// The modulus.
    spec fn size_spec(&self) -> int;

    /// The count of whole cycles that winding `total` gives.
    spec fn wind_cycle(&self, total: int) -> int;

    /// Whether a point with these coordinates is valid for the scheme.
    spec fn is_norm_spec(&self, cycle: int, phase: int) -> bool;

    /// The modulus is at least one.
    proof fn lemma_size(&self)
        ensures
            1 <= self.size_spec() <= i64::MAX,
    ;

    /// Winding a non-negative total gives a non-negative count of whole cycles that leaves
    /// a non-negative phase, and a valid point.
    proof fn lemma_wind(&self, total: int)
        requires
            0 <= total,
        ensures
            0 <= self.wind_cycle(total),
            0 <= total - self.wind_cycle(total) * self.size_spec(),
            self.is_norm_spec(self.wind_cycle(total), total - self.wind_cycle(total) * self.size_spec()),
    ;

    fn size(&self) -> (r: Positive)
        ensures
            r@ == self.size_spec(),
    ;

    fn is_norm(&self, point: &CyclePoint<Self::Cycles>) -> (r: bool)
        ensures
            r == self.is_norm_spec(point.cycle@, point.phase@),
    ;

    /// Splits `cycles` into whole cycles and a phase; the point is always valid.
    fn wind_inner(&self, cycles: &Self::Cycles) -> (r: CyclePoint<Self::Cycles>)
        ensures
            r.cycle@ == self.wind_cycle(cycles@),
            r.cycle@ * self.size_spec() + r.phase@ == cycles@,
            self.is_norm_spec(r.cycle@, r.phase@),
    ;

    /// Puts a point back together into a total.
    fn unwind(&self, point: &CyclePoint<Self::Cycles>) -> (r: Self::Cycles)
        requires
            is_i64(point.cycle@ * self.size_spec()),
            is_i64(point.cycle@ * self.size_spec() + point.phase@),
        ensures
            r@ == point.cycle@ * self.size_spec() + point.phase@,
    ;

    /// The point bound to this scheme, or nothing where it is not valid.
    fn bind<'a>(&'a self, point: CyclePoint<Self::Cycles>) -> (r: Option<BoundCyclePoint<'a, Self>>)
        ensures
            r is Some <==> self.is_norm_spec(point.cycle@, point.phase@),
            r is Some ==> r->0.scheme == self && r->0.point == point,
    {
        if self.is_norm(&point) {
            Some(BoundCyclePoint { scheme: self, point })
        } else {
            None
        }
    }

    /// The point with these coordinates bound to this scheme, or nothing where it is not valid.
    fn point<'a>(&'a self, cycle: Self::Cycles, phase: Natural) -> (r: Option<BoundCyclePoint<'a, Self>>)
        ensures
            r is Some <==> self.is_norm_spec(cycle@, phase@),
            r is Some ==> r->0.scheme == self && r->0.point == (CyclePoint { cycle, phase }),
    {
        self.bind(CyclePoint::new(cycle, phase))
    }

    /// Splits `cycles` into a point bound to this scheme.
    fn wind<'a>(&'a self, cycles: &Self::Cycles) -> (r: BoundCyclePoint<'a, Self>)
        ensures
            r.scheme == self,
            r.point.cycle@ == self.wind_cycle(cycles@),
            r.point.cycle@ * self.size_spec() + r.point.phase@ == cycles@,
            self.is_norm_spec(r.point.cycle@, r.point.phase@),
    {
        BoundCyclePoint { scheme: self, point: self.wind_inner(cycles) }
    }
}

/// An ordinary modulus over non-negative totals.
#[derive(Debug, PartialEq, Eq, Clone, Copy)]
pub struct SimpleCycle {
    size: Positive,
}

impl SimpleCycle {
    pub fn new(size: Positive) -> (r: SimpleCycle)
        ensures
            r.size_spec() == size@,
    {
        SimpleCycle { size }
    }
}

impl Cycle for SimpleCycle {
    type Cycles = Natural;

    closed spec fn size_spec(&self) -> int {
        self.size@
    }

    open spec fn wind_cycle(&self, total: int) -> int {
        total / self.size_spec()
    }

    open spec fn is_norm_spec(&self, cycle: int, phase: int) -> bool {
        phase < self.size_spec()
    }

    proof fn lemma_size(&self) {
    }

    proof fn lemma_wind(&self, total: int) {
        let s = self.size_spec();
        vstd::arithmetic::div_mod::lemma_fundamental_div_mod(total, s);
        vstd::arithmetic::div_mod::lemma_mod_pos_bound(total, s);
        vstd::arithmetic::div_mod::lemma_div_pos_is_pos(total, s);
        assert(total - (total / s) * s == total % s) by (nonlinear_arith)
            requires
                total == s * (total / s) + total % s,
        ;
    }

    fn size(&self) -> (r: Positive) {
        self.size
    }

    fn is_norm(&self, point: &CyclePoint<Natural>) -> (r: bool) {
        point.phase.out() < self.size.out()
    }

    fn wind_inner(&self, cycles: &Natural) -> (r: CyclePoint<Natural>) {
        let r = CyclePoint::new(cycles.div(self.size), cycles.rem(self.size));
        proof {
            vstd::arithmetic::div_mod::lemma_fundamental_div_mod(cycles@, self.size@);
            vstd::arithmetic::div_mod::lemma_mod_pos_bound(cycles@, self.size@);
        }
        r
    }

    fn unwind(&self, point: &CyclePoint<Natural>) -> (r: Natural) {
        point.cycle.mul_positive(self.size()).add(point.phase)
    }
}

/// A modulus with a bound on the count of whole cycles: past the bound the excess stays in
/// the phase, so that winding and unwinding stay exact.
#[derive(Debug, PartialEq, Eq, Clone, Copy)]
pub struct LimitedCycle {
    size: Positive,
    limit: Positive,
}

impl LimitedCycle {
    pub fn new(size: Positive, limit: Positive) -> (r: LimitedCycle)
        ensures
            r.size_spec() == size@,
            r.limit_spec() == limit@,
    {
        LimitedCycle { size, limit }
    }

    /// The largest count of whole cycles.
    pub closed spec fn limit_spec(&self) -> int {
        self.limit@
    }

    /// The cycle of `rhs`'s limit repetitions of both sizes at once: its size is the
    /// product of the two sizes.
    pub fn mul(self, rhs: LimitedCycle) -> (r: LimitedCycle)
        requires
            self.size_spec() * rhs.size_spec() <= i64::MAX,
        ensures
            r.size_spec() == self.size_spec() * rhs.size_spec(),
            r.limit_spec() == rhs.limit_spec(),
    {
        LimitedCycle::new(self.size.mul(rhs.size), rhs.limit)
    }

    pub fn limit(&self) -> (r: Positive)
        ensures
            r@ == self.limit_spec(),
    {
        self.limit
    }
}

impl Cycle for LimitedCycle {
    type Cycles = Natural;

    closed spec fn size_spec(&self) -> int {
        self.size@
    }

    open spec fn wind_cycle(&self, total: int) -> int {
        if total / self.size_spec() <= self.limit_spec() {
            total / self.size_spec()
        } else {
            self.limit_spec()
        }
    }

    open spec fn is_norm_spec(&self, cycle: int, phase: int) -> bool {
        phase < self.size_spec() || cycle == self.limit_spec()
    }

    proof fn lemma_size(&self) {
    }

    proof fn lemma_wind(&self, total: int) {
        let s = self.size_spec();
        let q = self.wind_cycle(total);
        vstd::arithmetic::div_mod::lemma_fundamental_div_mod(total, s);
        vstd::arithmetic::div_mod::lemma_mod_pos_bound(total, s);
        vstd::arithmetic::div_mod::lemma_div_pos_is_pos(total, s);
        assert(q * s <= total) by (nonlinear_arith)
            requires
                0 <= q <= total / s,
                total == s * (total / s) + total % s,
                0 <= total % s,
                s >= 1,
        ;
        if q < self.limit_spec() {
            assert(total - q * s == total % s) by (nonlinear_arith)
                requires
                    q == total / s,
                    total == s * (total / s) + total % s,
            ;
        }
    }

    fn size(&self) -> (r: Positive) {
        self.size
    }

    fn is_norm(&self, point: &CyclePoint<Natural>) -> (r: bool) {
        point.phase.out() < self.size.out() || point.cycle.out() == self.limit.out()
    }

    fn wind_inner(&self, cycles: &Natural) -> (r: CyclePoint<Natural>) {
        let d = cycles.div(self.size);
        let q = if d.out() <= self.limit.out() {
            d
        } else {
            self.limit.natural()
        };
        proof {
            vstd::arithmetic::div_mod::lemma_fundamental_div_mod(cycles@, self.size@);
            assert(q@ * self.size@ <= cycles@) by (nonlinear_arith)
                requires
                    q@ <= cycles@ / self.size@,
                    cycles@ == self.size@ * (cycles@ / self.size@) + cycles@ % self.size@,
                    0 <= cycles@ % self.size@,
                    self.size@ >= 1,
                    q@ >= 0,
            ;
        }
        let used = q.mul_positive(self.size);
        let phase = Natural::at_least(cycles.out() - used.out());
        proof {
            if q@ < self.limit@ {
                vstd::arithmetic::div_mod::lemma_mod_pos_bound(cycles@, self.size@);
            }
        }
        CyclePoint::new(q, phase)
    }

    fn unwind(&self, point: &CyclePoint<Natural>) -> (r: Natural) {
        point.cycle.mul_positive(self.size()).add(point.phase)
    }
}

/// How a digit's numbers embed into, and project from, the numbers of the total.
pub trait PeriodRepresentation {
    fn embed_positive(u: Positive) -> (r: Positive)
        ensures
            r@ == u@,
    ;

    fn embed(u: Natural) -> (r: Natural)
        ensures
            r@ == u@,
    ;

    fn project(l: Natural) -> (r: Natural)
        ensures
            r@ == l@,
    ;
}

/// The representation where digit and total share their numbers.
#[derive(Debug, PartialEq, Eq, Clone, Copy)]
pub struct IdentityPeriodRepresentation;

impl PeriodRepresentation for IdentityPeriodRepresentation {
    fn embed_positive(u: Positive) -> (r: Positive) {
        u
    }

    fn embed(u: Natural) -> (r: Natural) {
        u
    }

    fn project(l: Natural) -> (r: Natural) {
        l
    }
}

/// A modulus over totals of any sign, by floor division.
#[derive(Debug, PartialEq, Eq)]
pub struct Period<R: PeriodRepresentation> {
    size: Positive,
    representation: PhantomData<R>,
}

impl<R: PeriodRepresentation> Period<R> {
    pub fn new(size: Positive) -> (r: Period<R>)
        ensures
            r.size_spec() == size@,
    {
        Period { size, representation: PhantomData }
    }
}

impl<R: PeriodRepresentation> Clone for Period<R> {
    fn clone(&self) -> (r: Period<R>)
        ensures
            r.size_spec() == self.size_spec(),
    {
        Period::new(self.size)
    }
}

impl<R: PeriodRepresentation> Cycle for Period<R> {
    type Cycles = Integer;

    closed spec fn size_spec(&self) -> int {
        self.size@
    }

    open spec fn wind_cycle(&self, total: int) -> int {
        total / self.size_spec()
    }

    open spec fn is_norm_spec(&self, cycle: int, phase: int) -> bool {
        phase < self.size_spec()
    }

    proof fn lemma_size(&self) {
    }

    proof fn lemma_wind(&self, total: int) {
        let s = self.size_spec();
        vstd::arithmetic::div_mod::lemma_fundamental_div_mod(total, s);
        vstd::arithmetic::div_mod::lemma_mod_pos_bound(total, s);
        vstd::arithmetic::div_mod::lemma_div_pos_is_pos(total, s);
        assert(total - (total / s) * s == total % s) by (nonlinear_arith)
            requires
                total == s * (total / s) + total % s,
        ;
    }

    fn size(&self) -> (r: Positive) {
        self.size
    }

    fn is_norm(&self, point: &CyclePoint<Integer>) -> (r: bool) {
        point.phase.out() < self.size.out()
    }

    fn wind_inner(&self, cycles: &Integer) -> (r: CyclePoint<Integer>) {
        let size_l = R::embed_positive(self.size);
        let (cycle, phase) = size_l.euclid(*cycles);
        CyclePoint::new(cycle, R::project(phase))
    }

    fn unwind(&self, point: &CyclePoint<Integer>) -> (r: Integer) {
        let size = R::embed_positive(self.size()).integer();
        let c_phase = R::embed(point.phase).integer();
        proof {
            assert(size@ == self.size_spec());
        }
        point.cycle.mul(size).add(c_phase)
    }
}

impl<R: PeriodRepresentation> Period<R> {
    /// Winds the floor of `r`, and keeps the fraction that is left over.
    pub fn wind_with_float<'a>(&'a self, r: Real) -> (w: WithFraction<BoundCyclePoint<'a, Self>>)
        ensures
            w.whole.scheme == self,
            w.whole.point.cycle@ * self.size_spec() + w.whole.point.phase@ == r@.0 / r@.1,
            w.whole.point.cycle@ == (r@.0 / r@.1) / self.size_spec(),
            w.fraction@ == (r@.0 % r@.1, r@.1),
    {
        let WithFraction { whole, fraction } = r.fractionalize();
        WithFraction::new(self.wind(&whole), fraction)
    }
}

/// The phase that winding `total` leaves.
pub open spec fn wound_phase<C: Cycle>(scheme: &C, total: int) -> int {
    total - scheme.wind_cycle(total) * scheme.size_spec()
}

/// Winding a non-negative total and unwinding the point gives the total back: the point is
/// valid, its phase is at least zero, and putting it back together stays within the
/// machine's integers.
pub proof fn lemma_round_trip<C: Cycle>(scheme: &C, total: int)
    requires
        0 <= total <= i64::MAX,
    ensures
        scheme.is_norm_spec(scheme.wind_cycle(total), wound_phase(scheme, total)),
        0 <= wound_phase(scheme, total),
        is_i64(scheme.wind_cycle(total) * scheme.size_spec()),
        scheme.wind_cycle(total) * scheme.size_spec() + wound_phase(scheme, total) == total,
{
    scheme.lemma_wind(total);
    scheme.lemma_size();
    let q = scheme.wind_cycle(total);
    let s = scheme.size_spec();
    assert(0 <= q * s) by (nonlinear_arith)
        requires
            0 <= q,
            1 <= s,
    ;
}

/// A simple cycle's phase is always below its size.
pub proof fn lemma_simple_phase_below_size(scheme: SimpleCycle, total: int)
    requires
        0 <= total,
    ensures
        0 <= wound_phase(&scheme, total) < scheme.size_spec(),
{
    scheme.lemma_wind(total);
}

/// A limited cycle's phase is below its size unless the count of whole cycles is at its
/// limit; past the limit times the size the count stays at the limit and the phase takes
/// the excess.
pub proof fn lemma_limited_saturation(scheme: LimitedCycle, total: int)
    requires
        0 <= total,
    ensures
        wound_phase(&scheme, total) < scheme.size_spec() || scheme.wind_cycle(total)
            == scheme.limit_spec(),
        total >= scheme.size_spec() * scheme.limit_spec() ==> scheme.wind_cycle(total)
            == scheme.limit_spec() && wound_phase(&scheme, total) == total - scheme.size_spec()
            * scheme.limit_spec(),
{
    scheme.lemma_wind(total);
    let s = scheme.size_spec();
    let l = scheme.limit_spec();
    if total >= s * l {
        vstd::arithmetic::div_mod::lemma_fundamental_div_mod(total, s);
        vstd::arithmetic::div_mod::lemma_mod_pos_bound(total, s);
        assert(total / s >= l) by (nonlinear_arith)
            requires
                total >= s * l,
                total == s * (total / s) + total % s,
                total % s < s,
                s >= 1,
        ;
        assert(s * l == l * s) by (nonlinear_arith);
    }
}

/// Unwinding a valid point of a period and winding the total gives the point back: the
/// decomposition by floor division is unique.
pub proof fn lemma_period_unwind_wind<R: PeriodRepresentation>(scheme: Period<R>, cycle: int, phase: int)
    requires
        0 <= phase,
        scheme.is_norm_spec(cycle, phase),
    ensures
        scheme.wind_cycle(cycle * scheme.size_spec() + phase) == cycle,
        wound_phase(&scheme, cycle * scheme.size_spec() + phase) == phase,
{
    scheme.lemma_size();
    vstd::arithmetic::div_mod::lemma_fundamental_div_mod_converse(
        cycle * scheme.size_spec() + phase,
        scheme.size_spec(),
        cycle,
        phase,
    );
}

/// Unwinding a valid point of a simple cycle and winding the total gives the point back.
pub proof fn lemma_simple_unwind_wind(scheme: SimpleCycle, cycle: int, phase: int)
    requires
        0 <= cycle,
        0 <= phase,
        scheme.is_norm_spec(cycle, phase),
    ensures
        scheme.wind_cycle(cycle * scheme.size_spec() + phase) == cycle,
        wound_phase(&scheme, cycle * scheme.size_spec() + phase) == phase,
{
    scheme.lemma_size();
    vstd::arithmetic::div_mod::lemma_fundamental_div_mod_converse(
        cycle * scheme.size_spec() + phase,
        scheme.size_spec(),
        cycle,
        phase,
    );
}

} // verus!
