use vstd::prelude::*;

use crate::cycle::{Cycle, CyclePoint, Period, PeriodRepresentation, SimpleCycle};
use crate::integral::{group_integral, is_i64, ConstrainedRep, HasOne, HasZero, Integer, Natural, Positive};
use crate::legend::PhaseLegend;

verus! {

broadcast use group_integral;

/// The values of the digits of a phase.
pub open spec fn phase_view<const N: usize>(phase: [Natural; N]) -> Seq<int> {
    Seq::new(N as nat, |i: int| phase[i]@)
}

/// The product of the first `k` values of `s`.
pub open spec fn prefix_product(s: Seq<int>, k: int) -> int
    decreases k,
{
    if k <= 0 {
        1
    } else {
        prefix_product(s, k - 1) * s[k - 1]
    }
}

/// A total split into an outer count of cycles and one phase per digit position.
#[derive(Debug, PartialEq, Eq, Clone, Copy)]
pub struct MixedPoint<const N: usize, Cycles> {
    pub cycle: Cycles,
    pub phase: [Natural; N],
}

impl<const N: usize, Cycles> MixedPoint<N, Cycles> {
    pub fn new(cycle: Cycles, phase: [Natural; N]) -> (r: MixedPoint<N, Cycles>)
        ensures
            r.cycle == cycle,
            r.phase == phase,
    {
        MixedPoint { cycle, phase }
    }
}

/// The phase of a point that has been checked against its scheme.
#[derive(Debug, PartialEq, Eq, Clone, Copy)]
pub struct BoundMixedPhase<'a, const N: usize, P: Mixed<N>> {
    pub schema: &'a P,
    pub phase: [Natural; N],
}

/// A point that has been checked against its scheme.
#[derive(Debug, PartialEq, Eq, Clone, Copy)]
pub struct BoundMixedPoint<'a, const N: usize, P: Mixed<N>> {
    pub schema: &'a P,
    pub point: MixedPoint<N, P::Cycles>,
}

/// The names of the outer count and of the digit positions of a point.
#[derive(Debug, PartialEq, Eq, Clone, Copy)]
pub struct MixedPointLegend<'a, const N: usize> {
    pub cycle: &'a str,
    pub phase: PhaseLegend<'a, N>,
}

impl<'a, const N: usize, P: Mixed<N>> BoundMixedPhase<'a, N, P> {
    pub fn new(schema: &'a P, phase: [Natural; N]) -> (r: BoundMixedPhase<'a, N, P>)
        ensures
            r.schema == schema,
            r.phase == phase,
    {
        BoundMixedPhase { schema, phase }
    }
}

impl<'a, const N: usize, P: Mixed<N>> BoundMixedPoint<'a, N, P> {
    pub fn new(schema: &'a P, point: MixedPoint<N, P::Cycles>) -> (r: BoundMixedPoint<'a, N, P>)
        ensures
            r.schema == schema,
            r.point == point,
    {
        BoundMixedPoint { schema, point }
    }

    /// The phase of the point, still bound to its scheme.
    pub fn phase(&self) -> (r: BoundMixedPhase<'a, N, P>)
        ensures
            r.schema == self.schema,
            r.phase == self.point.phase,
    {
        BoundMixedPhase::new(self.schema, self.point.phase)
    }
}

impl<'a, const N: usize> MixedPointLegend<'a, N> {
    pub fn with_names(cycle: &'a str, phase: [&'a str; N]) -> (r: MixedPointLegend<'a, N>)
        ensures
            r.cycle == cycle,
            r.phase.0 == phase,
    {
        MixedPointLegend { cycle, phase: PhaseLegend::new(phase) }
    }
}

/// A mixed-radix scheme: the rules that split a total into an outer count and a fixed
/// number of digits, and put them back together.
pub trait Mixed<const N: usize>: Sized {
    type Cycles: View<V = int> + Copy;

    spec fn is_norm_spec(&self, cycle: int, phase: Seq<int>) -> bool;

    /// The outer count that winding `total` gives.
    spec fn wind_cycle(&self, total: int) -> int;

    /// The digits that winding `total` gives.
    spec fn wind_phase(&self, total: int) -> Seq<int>;

    /// The total that a point puts back together into.
    spec fn unwind_spec(&self, cycle: int, phase: Seq<int>) -> int;

    /// Whether putting the point back together stays within the machine's integers.
    spec fn unwind_req(&self, cycle: int, phase: Seq<int>) -> bool;

    fn is_norm(&self, point: &MixedPoint<N, Self::Cycles>) -> (r: bool)
        ensures
            r == self.is_norm_spec(point.cycle@, phase_view(point.phase)),
    ;

    fn wind_inner(&self, total: &Self::Cycles) -> (r: MixedPoint<N, Self::Cycles>)
        ensures
            r.cycle@ == self.wind_cycle(total@),
            phase_view(r.phase) == self.wind_phase(total@),
    ;

    fn unwind(&self, point: &MixedPoint<N, Self::Cycles>) -> (r: Self::Cycles)
        requires
            self.unwind_req(point.cycle@, phase_view(point.phase)),
        ensures
            r@ == self.unwind_spec(point.cycle@, phase_view(point.phase)),
    ;

    /// The point bound to this scheme, or nothing where it is not valid.
    fn bind<'a>(&'a self, point: MixedPoint<N, Self::Cycles>) -> (r: Option<BoundMixedPoint<'a, N, Self>>)
        ensures
            r is Some <==> self.is_norm_spec(point.cycle@, phase_view(point.phase)),
            r is Some ==> r->0.schema == self && r->0.point == point,
    {
        if self.is_norm(&point) {
            Some(BoundMixedPoint { schema: self, point })
        } else {
            None
        }
    }

    /// The point with these coordinates bound to this scheme, or nothing where it is not valid.
    fn point<'a>(&'a self, cycle: Self::Cycles, phase: [Natural; N]) -> (r: Option<BoundMixedPoint<'a, N, Self>>)
        ensures
            r is Some <==> self.is_norm_spec(cycle@, phase_view(phase)),
            r is Some ==> r->0.schema == self && r->0.point == (MixedPoint { cycle, phase }),
    {
        self.bind(MixedPoint { cycle, phase })
    }

    /// Splits `total` into a point bound to this scheme.
    fn wind<'a>(&'a self, total: Self::Cycles) -> (r: BoundMixedPoint<'a, N, Self>)
        ensures
            r.schema == self,
            r.point.cycle@ == self.wind_cycle(total@),
            phase_view(r.point.phase) == self.wind_phase(total@),
    {
        BoundMixedPoint { schema: self, point: self.wind_inner(&total) }
    }
}

/// A mixed-radix scheme of one outer period and one cycle per digit; digit 0 is the least
/// significant.
#[derive(Debug, PartialEq, Eq, Clone)]
pub struct SimpleMixed<R: PeriodRepresentation, C: Cycle<Cycles = Natural>, const N: usize> {
    pub period: Period<R>,
    pub factors: [C; N],
}

impl<R: PeriodRepresentation, C: Cycle<Cycles = Natural>, const N: usize> SimpleMixed<R, C, N> {
    /// The sizes of the factors, digit 0 first.
    pub open spec fn sizes(&self) -> Seq<int> {
        Seq::new(N as nat, |k: int| self.factors[k].size_spec())
    }

    /// Whether the period is the product of the sizes of the factors.
    pub open spec fn is_tiled(&self) -> bool {
        self.period.size_spec() == prefix_product(self.sizes(), N as int)
    }

    /// What is left to reduce after the first `k` digits of `total` are taken.
    pub open spec fn carry(&self, total: int, k: nat) -> int
        decreases k,
    {
        if k == 0 {
            total % self.period.size_spec()
        } else {
            self.factors[k - 1].wind_cycle(self.carry(total, (k - 1) as nat))
        }
    }

    /// Digit `k` of `total`.
    pub open spec fn digit(&self, total: int, k: nat) -> int {
        self.carry(total, k) - self.carry(total, k + 1) * self.factors[k as int].size_spec()
    }

    /// The total of the outer count `cycle` and of the digits of `phase` from `k` up.
    pub open spec fn unwound(&self, cycle: int, phase: Seq<int>, k: int) -> int
        decreases N - k,
    {
        if k >= N {
            cycle
        } else {
            self.unwound(cycle, phase, k + 1) * self.factors[k].size_spec() + phase[k]
        }
    }

    pub fn new(period: Period<R>, factors: [C; N]) -> (r: SimpleMixed<R, C, N>)
        ensures
            r.period == period,
            r.factors == factors,
    {
        SimpleMixed { period, factors }
    }

    /// The scheme whose period is the product of the sizes of `factors`.
    pub fn from_factors(factors: [C; N]) -> (r: SimpleMixed<R, C, N>)
        requires
            prefix_product(Seq::new(N as nat, |k: int| factors[k].size_spec()), N as int) <= i64::MAX,
        ensures
            r.factors == factors,
            r.is_tiled(),
    {
        let ghost sizes = Seq::new(N as nat, |k: int| factors[k].size_spec());
        let mut prod = Positive::one();
        let mut k: usize = 0;
        proof {
            lemma_sizes_positive(factors);
            lemma_prefix_product_monotone(sizes, 0, N as int);
        }
        while k < N
            invariant
                k <= N,
                sizes == Seq::new(N as nat, |k: int| factors[k].size_spec()),
                prefix_product(sizes, N as int) <= i64::MAX,
                prod@ == prefix_product(sizes, k as int),
                forall|i: int| 0 <= i < sizes.len() ==> #[trigger] sizes[i] >= 1,
            decreases N - k,
        {
            proof {
                lemma_prefix_product_monotone(sizes, k + 1, N as int);
            }
            prod = prod.mul(factors[k].size());
            k = k + 1;
        }
        let r = SimpleMixed::new(Period::new(prod), factors);
        assert(r.sizes() =~= sizes);
        r
    }

    pub fn num_factors(&self) -> (r: usize)
        ensures
            r == N,
    {
        N
    }
}

impl<R: PeriodRepresentation, const N: usize> SimpleMixed<R, SimpleCycle, N> {
    /// The scheme of simple cycles of these sizes, whose period is their product.
    pub fn from_simple_factors(sizes: [Positive; N]) -> (r: SimpleMixed<R, SimpleCycle, N>)
        requires
            prefix_product(phase_sizes(sizes), N as int) <= i64::MAX,
        ensures
            r.sizes() == phase_sizes(sizes),
            r.is_tiled(),
    {
        let mut factors: [SimpleCycle; N] = [SimpleCycle::new(Positive::one()); N];
        let mut k: usize = 0;
        while k < N
            invariant
                k <= N,
                forall|j: int| 0 <= j < k ==> #[trigger] factors[j].size_spec() == sizes[j]@,
            decreases N - k,
        {
            factors[k] = SimpleCycle::new(sizes[k]);
            k = k + 1;
        }
        assert(Seq::new(N as nat, |k: int| factors[k].size_spec()) =~= phase_sizes(sizes));
        let r = Self::from_factors(factors);
        assert(r.sizes() =~= phase_sizes(sizes));
        r
    }
}

impl<R: PeriodRepresentation, C: Cycle<Cycles = Natural>, const N: usize> Mixed<N> for SimpleMixed<
    R,
    C,
    N,
> {
    type Cycles = Integer;

    open spec fn is_norm_spec(&self, cycle: int, phase: Seq<int>) -> bool {
        forall|k: int| 0 <= k < N ==> #[trigger] phase[k] < self.factors[k].size_spec()
    }

    open spec fn wind_cycle(&self, total: int) -> int {
        total / self.period.size_spec()
    }

    open spec fn wind_phase(&self, total: int) -> Seq<int> {
        Seq::new(N as nat, |k: int| self.digit(total, k as nat))
    }

    open spec fn unwind_spec(&self, cycle: int, phase: Seq<int>) -> int {
        self.unwound(cycle, phase, 0)
    }

    open spec fn unwind_req(&self, cycle: int, phase: Seq<int>) -> bool {
        forall|k: int|
            0 <= k < N ==> {
                &&& is_i64(#[trigger] self.unwound(cycle, phase, k + 1) * self.factors[k].size_spec())
                &&& is_i64(self.unwound(cycle, phase, k))
            }
    }

    fn is_norm(&self, point: &MixedPoint<N, Integer>) -> (r: bool) {
        let mut k: usize = 0;
        while k < N
            invariant
                k <= N,
                forall|j: int| 0 <= j < k ==> #[trigger] point.phase[j]@ < self.factors[j].size_spec(),
            decreases N - k,
        {
            if self.factors[k].size().out() <= point.phase[k].out() {
                assert(phase_view(point.phase)[k as int] >= self.factors[k as int].size_spec());
                return false;
            }
            k = k + 1;
        }
        assert(forall|j: int| 0 <= j < N ==> phase_view(point.phase)[j] == point.phase[j]@);
        true
    }

    fn wind_inner(&self, total: &Integer) -> (r: MixedPoint<N, Integer>) {
        let outer = self.period.wind(total).point;
        proof {
            self.period.lemma_size();
            vstd::arithmetic::div_mod::lemma_fundamental_div_mod_converse(
                total@,
                self.period.size_spec(),
                outer.cycle@,
                outer.phase@,
            );
        }
        let mut phase = outer.phase;
        let mut phases: [Natural; N] = [Natural::zero(); N];
        let mut k: usize = 0;
        while k < N
            invariant
                k <= N,
                phase@ == self.carry(total@, k as nat),
                forall|j: int| 0 <= j < k ==> #[trigger] phases[j]@ == self.digit(total@, j as nat),
            decreases N - k,
        {
            let point = self.factors[k].wind(&phase).point;
            phases[k] = point.phase;
            phase = point.cycle;
            k = k + 1;
        }
        let r = MixedPoint::new(outer.cycle, phases);
        assert(phase_view(r.phase) =~= self.wind_phase(total@));
        r
    }

    fn unwind(&self, point: &MixedPoint<N, Integer>) -> (r: Integer) {
        let ghost phase = phase_view(point.phase);
        let mut total = point.cycle;
        let mut k: usize = N;
        while k > 0
            invariant
                k <= N,
                phase == phase_view(point.phase),
                self.unwind_req(point.cycle@, phase),
                total@ == self.unwound(point.cycle@, phase, k as int),
            decreases k,
        {
            k = k - 1;
            let factor = Period::<R>::new(self.factors[k].size());
            assert(is_i64(self.unwound(point.cycle@, phase, k + 1) * self.factors[k as int].size_spec()));
            total = factor.unwind(&CyclePoint::new(total, point.phase[k]));
        }
        assert(total@ == self.unwound(point.cycle@, phase, 0));
        assert(self.unwind_spec(point.cycle@, phase) == self.unwound(point.cycle@, phase, 0));
        total
    }
}

/// The values of an array of sizes.
pub open spec fn phase_sizes<const N: usize>(sizes: [Positive; N]) -> Seq<int> {
    Seq::new(N as nat, |i: int| sizes[i]@)
}

/// Prefix products of values that are at least one are at least one.
pub proof fn lemma_prefix_product_positive(s: Seq<int>, k: int)
    requires
        0 <= k <= s.len(),
        forall|i: int| 0 <= i < s.len() ==> #[trigger] s[i] >= 1,
    ensures
        prefix_product(s, k) >= 1,
    decreases k,
{
    if k > 0 {
        lemma_prefix_product_positive(s, k - 1);
        let a = prefix_product(s, k - 1);
        assert(a * s[k - 1] >= 1) by (nonlinear_arith)
            requires
                a >= 1,
                s[k - 1] >= 1,
        ;
    }
}

/// Prefix products of values that are at least one grow with the prefix.
pub proof fn lemma_prefix_product_monotone(s: Seq<int>, j: int, k: int)
    requires
        0 <= j <= k <= s.len(),
        forall|i: int| 0 <= i < s.len() ==> #[trigger] s[i] >= 1,
    ensures
        1 <= prefix_product(s, j) <= prefix_product(s, k),
    decreases k - j,
{
    lemma_prefix_product_positive(s, j);
    if j < k {
        lemma_prefix_product_monotone(s, j, k - 1);
        let a = prefix_product(s, k - 1);
        assert(a * s[k - 1] >= a) by (nonlinear_arith)
            requires
                a >= 1,
                s[k - 1] >= 1,
        ;
    }
}

/// Every factor of a scheme has a size of at least one.
pub proof fn lemma_sizes_positive<C: Cycle, const N: usize>(factors: [C; N])
    ensures
        forall|i: int| 0 <= i < N ==> #[trigger] factors[i].size_spec() >= 1,
{
    assert forall|i: int| 0 <= i < N implies #[trigger] factors[i].size_spec() >= 1 by {
        factors[i].lemma_size();
    }
}

/// The product of the values of `s` from index `k` on.
pub open spec fn suffix_product(s: Seq<int>, k: int) -> int
    decreases s.len() - k,
{
    if k >= s.len() {
        1
    } else {
        s[k] * suffix_product(s, k + 1)
    }
}

/// A prefix product times the matching suffix product is the whole product.
pub proof fn lemma_prefix_suffix(s: Seq<int>, k: int)
    requires
        0 <= k <= s.len(),
    ensures
        prefix_product(s, k) * suffix_product(s, k) == prefix_product(s, s.len() as int),
    decreases s.len() - k,
{
    if k < s.len() {
        lemma_prefix_suffix(s, k + 1);
        let a = prefix_product(s, k);
        let b = suffix_product(s, k + 1);
        assert(a * (s[k] * b) == (a * s[k]) * b) by (nonlinear_arith);
    }
}

impl<R: PeriodRepresentation, C: Cycle<Cycles = Natural>, const N: usize> SimpleMixed<R, C, N> {
    /// Each carry is at least zero, the next carry times its factor's size is at most it,
    /// and, scaled by the sizes below it, it stays within the first carry.
    proof fn lemma_carry(&self, total: int, k: nat)
        requires
            0 <= total,
            self.period.size_spec() >= 1,
            k <= N,
        ensures
            0 <= self.carry(total, k),
            self.carry(total, k) * prefix_product(self.sizes(), k as int) <= self.carry(total, 0),
            k < N ==> 0 <= self.digit(total, k),
        decreases k,
    {
        let p = self.period.size_spec();
        vstd::arithmetic::div_mod::lemma_mod_pos_bound(total, p);
        if k > 0 {
            let j = (k - 1) as nat;
            self.lemma_carry(total, j);
            let c = self.carry(total, j);
            let f = self.factors[j as int];
            f.lemma_wind(c);
            f.lemma_size();
            let n = self.carry(total, k);
            let sz = f.size_spec();
            let pre = prefix_product(self.sizes(), j as int);
            lemma_sizes_positive(self.factors);
            lemma_prefix_product_positive(self.sizes(), j as int);
            assert(self.sizes()[j as int] == sz);
            assert(n * (pre * sz) <= c * pre) by (nonlinear_arith)
                requires
                    0 <= n,
                    n * sz <= c,
                    pre >= 1,
            ;
        }
        if k < N {
            let c = self.carry(total, k);
            let f = self.factors[k as int];
            f.lemma_wind(c);
        }
    }

    /// Putting the wound digits back together from position `k` up gives the outer count
    /// times the sizes from `k` up, plus the carry at `k`.
    proof fn lemma_unwound(&self, total: int, k: int)
        requires
            0 <= total,
            self.period.size_spec() >= 1,
            0 <= k <= N,
            self.carry(total, N as nat) == 0,
        ensures
            self.unwound(self.wind_cycle(total), self.wind_phase(total), k) == self.wind_cycle(total)
                * suffix_product(self.sizes(), k) + self.carry(total, k as nat),
        decreases N - k,
    {
        if k < N {
            self.lemma_unwound(total, k + 1);
            let q = self.wind_cycle(total);
            let sz = self.factors[k].size_spec();
            let suf = suffix_product(self.sizes(), k + 1);
            let nc = self.carry(total, (k + 1) as nat);
            assert(self.sizes()[k] == sz);
            assert((q * suf + nc) * sz == q * (sz * suf) + nc * sz) by (nonlinear_arith);
        }
    }
}

/// Winding a non-negative total with a scheme whose period is the product of its factors'
/// sizes, and unwinding the point, gives the total back; putting it back together stays
/// within the machine's integers.
pub proof fn lemma_mixed_round_trip<R: PeriodRepresentation, C: Cycle<Cycles = Natural>, const N: usize>(
    scheme: &SimpleMixed<R, C, N>,
    total: int,
)
    requires
        scheme.is_tiled(),
        0 <= total <= i64::MAX,
    ensures
        scheme.unwind_req(scheme.wind_cycle(total), scheme.wind_phase(total)),
        scheme.unwind_spec(scheme.wind_cycle(total), scheme.wind_phase(total)) == total,
{
    let p = scheme.period.size_spec();
    let sizes = scheme.sizes();
    let q = scheme.wind_cycle(total);
    let rem = scheme.carry(total, 0);
    scheme.period.lemma_size();
    lemma_sizes_positive(scheme.factors);
    vstd::arithmetic::div_mod::lemma_fundamental_div_mod(total, p);
    vstd::arithmetic::div_mod::lemma_mod_pos_bound(total, p);
    vstd::arithmetic::div_mod::lemma_div_pos_is_pos(total, p);
    scheme.lemma_carry(total, N as nat);
    let last = scheme.carry(total, N as nat);
    assert(sizes.len() == N);
    assert(last * p <= rem);
    assert(last == 0) by (nonlinear_arith)
        requires
            0 <= last,
            last * p <= rem,
            rem < p,
            p >= 1,
    ;
    assert forall|k: int| 0 <= k <= N implies {
        let u = #[trigger] scheme.unwound(q, scheme.wind_phase(total), k);
        0 <= u <= total
    } by {
        scheme.lemma_unwound(total, k);
        scheme.lemma_carry(total, k as nat);
        lemma_prefix_suffix(sizes, k);
        lemma_prefix_product_positive(sizes, k);
        let pre = prefix_product(sizes, k);
        let suf = suffix_product(sizes, k);
        let c = scheme.carry(total, k as nat);
        assert(sizes.len() == N);
        let v = q * suf + c;
        assert(v * pre == q * (pre * suf) + c * pre) by (nonlinear_arith)
            requires
                v == q * suf + c,
        ;
        assert(suf >= 1) by (nonlinear_arith)
            requires
                pre >= 1,
                pre * suf == p,
                p >= 1,
        ;
        assert(q * (pre * suf) == p * q) by (nonlinear_arith)
            requires
                pre * suf == p,
        ;
        assert(0 <= q * suf) by (nonlinear_arith)
            requires
                0 <= q,
                0 <= suf,
        ;
        assert(v <= v * pre) by (nonlinear_arith)
            requires
                0 <= v,
                pre >= 1,
        ;
    }
    assert forall|k: int| 0 <= k < N implies {
        &&& is_i64(
            #[trigger] scheme.unwound(q, scheme.wind_phase(total), k + 1) * scheme.factors[k].size_spec(),
        )
        &&& is_i64(scheme.unwound(q, scheme.wind_phase(total), k))
    } by {
        let phase = scheme.wind_phase(total);
        let u = scheme.unwound(q, phase, k + 1);
        let sz = scheme.factors[k].size_spec();
        scheme.lemma_carry(total, k as nat);
        assert(scheme.unwound(q, phase, k) == u * sz + phase[k]);
        assert(0 <= u);
        assert(0 <= u * sz) by (nonlinear_arith)
            requires
                0 <= u,
                1 <= sz,
        ;
    }
    scheme.lemma_unwound(total, 0);
    lemma_prefix_suffix(sizes, 0);
    assert(sizes.len() == N);
    assert(q * suffix_product(sizes, 0) == p * q) by (nonlinear_arith)
        requires
            suffix_product(sizes, 0) == p,
    ;
}

/// Digit `k` of `total` in the mixed radix of `sizes`, least significant first: the total
/// modulo the product of all sizes, divided by the product of the sizes below `k`, modulo
/// size `k`.
pub open spec fn radix_digit(sizes: Seq<int>, total: int, k: int) -> int {
    (total % prefix_product(sizes, sizes.len() as int)) / prefix_product(sizes, k) % sizes[k]
}

/// All digits of `total` in the mixed radix of `sizes`.
pub open spec fn radix_digits(sizes: Seq<int>, total: int) -> Seq<int> {
    Seq::new(sizes.len(), |k: int| radix_digit(sizes, total, k))
}

impl<R: PeriodRepresentation, const N: usize> SimpleMixed<R, SimpleCycle, N> {
    proof fn lemma_simple_carry(&self, total: int, k: nat)
        requires
            self.is_tiled(),
            k <= N,
        ensures
            self.carry(total, k) == self.carry(total, 0) / prefix_product(self.sizes(), k as int),
            k < N ==> self.digit(total, k) == self.carry(total, k) % self.factors[k as int].size_spec(),
        decreases k,
    {
        let sizes = self.sizes();
        lemma_sizes_positive(self.factors);
        self.period.lemma_size();
        vstd::arithmetic::div_mod::lemma_mod_bound(total, self.period.size_spec());
        if k > 0 {
            let j = (k - 1) as nat;
            self.lemma_simple_carry(total, j);
            lemma_prefix_product_positive(sizes, j as int);
            assert(sizes[j as int] == self.factors[j as int].size_spec());
            vstd::arithmetic::div_mod::lemma_div_denominator(
                self.carry(total, 0),
                prefix_product(sizes, j as int),
                sizes[j as int],
            );
        }
        if k < N {
            let c = self.carry(total, k);
            let sz = self.factors[k as int].size_spec();
            vstd::arithmetic::div_mod::lemma_fundamental_div_mod(c, sz);
            assert(c - (c / sz) * sz == c % sz) by (nonlinear_arith)
                requires
                    c == sz * (c / sz) + c % sz,
            ;
        }
    }
}

/// The digits that a scheme of simple cycles, whose period is the product of their sizes,
/// gives a total are its digits in that mixed radix, and the outer count is the floor of
/// the total by the period.
pub proof fn lemma_simple_mixed_digits<R: PeriodRepresentation, const N: usize>(
    scheme: &SimpleMixed<R, SimpleCycle, N>,
    total: int,
)
    requires
        scheme.is_tiled(),
    ensures
        scheme.wind_phase(total) == radix_digits(scheme.sizes(), total),
        scheme.wind_cycle(total) == total / prefix_product(scheme.sizes(), N as int),
{
    let sizes = scheme.sizes();
    assert forall|k: int| 0 <= k < N implies #[trigger] scheme.wind_phase(total)[k] == radix_digits(
        sizes,
        total,
    )[k] by {
        scheme.lemma_simple_carry(total, k as nat);
    }
    assert(scheme.wind_phase(total) =~= radix_digits(sizes, total));
}

/// A scheme of simple cycles whose period is the product of their sizes winds every total
/// into a valid point: each digit is below its factor's size.
pub proof fn lemma_simple_mixed_wind_is_norm<R: PeriodRepresentation, const N: usize>(
    scheme: &SimpleMixed<R, SimpleCycle, N>,
    total: int,
)
    requires
        scheme.is_tiled(),
    ensures
        scheme.is_norm_spec(scheme.wind_cycle(total), scheme.wind_phase(total)),
{
    lemma_simple_mixed_digits(scheme, total);
    lemma_sizes_positive(scheme.factors);
    let sizes = scheme.sizes();
    assert forall|k: int| 0 <= k < N implies #[trigger] scheme.wind_phase(total)[k]
        < scheme.factors[k].size_spec() by {
        let p = prefix_product(sizes, N as int);
        let pre = prefix_product(sizes, k);
        vstd::arithmetic::div_mod::lemma_mod_bound((total % p) / pre, sizes[k]);
    }
}

} // verus!
