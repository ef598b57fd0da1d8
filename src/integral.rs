use vstd::prelude::*;
use vstd::arithmetic::div_mod::{lemma_fundamental_div_mod, lemma_fundamental_div_mod_converse};

verus! {

/// An integer with no constraint.
#[derive(Debug, PartialEq, Eq, PartialOrd, Ord, Clone, Copy, Hash)]
pub struct Integer(i64);

/// An integer that is at least zero.
#[derive(Debug, PartialEq, Eq, PartialOrd, Ord, Clone, Copy, Hash)]
pub struct Natural(i64);

/// An integer that is at least one.
#[derive(Debug, PartialEq, Eq, PartialOrd, Ord, Clone, Copy, Hash)]
pub struct Positive(i64);

/// An integer that is greater than one.
#[derive(Debug, PartialEq, Eq, PartialOrd, Ord, Clone, Copy, Hash)]
pub struct Many(i64);

impl View for Integer {
    type V = int;

    closed spec fn view(&self) -> int {
        self.0 as int
    }
}

// The views of the constrained kinds are total: the type invariant makes each one the
// stored value, and the fallback keeps the kind's bound visible outside this module.
impl View for Natural {
    type V = int;

    closed spec fn view(&self) -> int {
        if self.0 >= 0 { self.0 as int } else { 0 }
    }
}

impl View for Positive {
    type V = int;

    closed spec fn view(&self) -> int {
        if self.0 >= 1 { self.0 as int } else { 1 }
    }
}

impl View for Many {
    type V = int;

    closed spec fn view(&self) -> int {
        if self.0 >= 2 { self.0 as int } else { 2 }
    }
}

/// Whether `v` is within the range of the underlying machine integer.
pub open spec fn is_i64(v: int) -> bool {
    i64::MIN <= v <= i64::MAX
}

/// An integer is within the machine range.
pub broadcast proof fn lemma_integer_view(x: Integer)
    ensures
        #[trigger] is_i64(x@),
{
}

/// A natural is at least zero.
pub broadcast proof fn lemma_natural_view(x: Natural)
    ensures
        0 <= #[trigger] x@ <= i64::MAX,
{
}

/// A positive is at least one.
pub broadcast proof fn lemma_positive_view(x: Positive)
    ensures
        1 <= #[trigger] x@ <= i64::MAX,
{
}

/// A many is at least two.
pub broadcast proof fn lemma_many_view(x: Many)
    ensures
        2 <= #[trigger] x@ <= i64::MAX,
{
}

pub broadcast group group_integral {
    lemma_integer_view,
    lemma_natural_view,
    lemma_positive_view,
    lemma_many_view,
}

/// The representation of zero, convertible into any kind that holds it.
#[derive(Debug, PartialEq, Eq, PartialOrd, Ord, Clone, Copy)]
pub struct Zero;

/// The representation of one, convertible into any kind that holds it.
#[derive(Debug, PartialEq, Eq, PartialOrd, Ord, Clone, Copy)]
pub struct One;

/// A kind of number: the values of the underlying type that satisfy a predicate.
pub trait ConstrainedRep: Sized + View<V = int> {
    spec fn can_rep_spec(x: int) -> bool;

    /// Whether `x` satisfies the kind's predicate.
    fn can_rep(x: &i64) -> (r: bool)
        ensures
            r == Self::can_rep_spec(*x as int),
    ;

    /// The underlying value.
    fn out(&self) -> (r: i64)
        ensures
            r as int == self@,
            Self::can_rep_spec(r as int),
    ;

    /// `x` as a value of this kind, or nothing where `x` does not satisfy the predicate.
    fn rep(x: i64) -> (r: Option<Self>)
        ensures
            r is Some <==> Self::can_rep_spec(x as int),
            r is Some ==> r->0@ == x,
    ;
}

/// A kind whose predicate is a lower bound.
pub trait LowerBoundedRep: Sized + View<V = int> {
    spec fn bottom_spec() -> int;

    /// The least value of the kind, as the underlying type.
    fn under_bottom() -> (r: i64)
        ensures
            r == Self::bottom_spec(),
    ;

    /// The least value of the kind.
    fn bottom() -> (r: Self)
        ensures
            r@ == Self::bottom_spec(),
    ;

    /// `x`, raised to the least value of the kind where it is below it.
    fn at_least(x: i64) -> (r: Self)
        ensures
            r@ == (if x >= Self::bottom_spec() { x as int } else { Self::bottom_spec() }),
    ;
}

/// A kind that holds zero.
pub trait HasZero: Sized + View<V = int> {
    fn zero() -> (r: Self)
        ensures
            r@ == 0,
    ;
}

/// A kind that holds one.
pub trait HasOne: Sized + View<V = int> {
    fn one() -> (r: Self)
        ensures
            r@ == 1,
    ;
}

impl ConstrainedRep for Integer {
    open spec fn can_rep_spec(x: int) -> bool {
        true
    }

    fn can_rep(x: &i64) -> (r: bool) {
        true
    }

    fn out(&self) -> (r: i64) {
        self.0
    }

    fn rep(x: i64) -> (r: Option<Self>) {
        Some(Integer(x))
    }
}

impl ConstrainedRep for Natural {
    open spec fn can_rep_spec(x: int) -> bool {
        x >= 0
    }

    fn can_rep(x: &i64) -> (r: bool) {
        *x >= 0
    }

    fn out(&self) -> (r: i64) {
        proof {
            use_type_invariant(self);
        }
        assert(self.0 >= 0);
        assert(Self::can_rep_spec(self.0 as int));
        self.0
    }

    fn rep(x: i64) -> (r: Option<Self>) {
        if Self::can_rep(&x) {
            Some(Natural(x))
        } else {
            None
        }
    }
}

impl ConstrainedRep for Positive {
    open spec fn can_rep_spec(x: int) -> bool {
        x >= 1
    }

    fn can_rep(x: &i64) -> (r: bool) {
        *x >= 1
    }

    fn out(&self) -> (r: i64) {
        proof {
            use_type_invariant(self);
        }
        assert(self.0 >= 1);
        assert(Self::can_rep_spec(self.0 as int));
        self.0
    }

    fn rep(x: i64) -> (r: Option<Self>) {
        if Self::can_rep(&x) {
            Some(Positive(x))
        } else {
            None
        }
    }
}

impl ConstrainedRep for Many {
    open spec fn can_rep_spec(x: int) -> bool {
        x > 1
    }

    fn can_rep(x: &i64) -> (r: bool) {
        *x > 1
    }

    fn out(&self) -> (r: i64) {
        proof {
            use_type_invariant(self);
        }
        assert(self.0 >= 2);
        assert(Self::can_rep_spec(self.0 as int));
        self.0
    }

    fn rep(x: i64) -> (r: Option<Self>) {
        if Self::can_rep(&x) {
            Some(Many(x))
        } else {
            None
        }
    }
}

impl LowerBoundedRep for Natural {
    open spec fn bottom_spec() -> int {
        0
    }

    fn under_bottom() -> (r: i64) {
        0
    }

    fn bottom() -> (r: Self) {
        Natural(0)
    }

    fn at_least(x: i64) -> (r: Self) {
        let r = if x >= 0 {
            Natural(x)
        } else {
            Natural(0)
        };
        assert(Self::bottom_spec() == 0);
        assert(r@ == r.0);
        r
    }
}

impl LowerBoundedRep for Positive {
    open spec fn bottom_spec() -> int {
        1
    }

    fn under_bottom() -> (r: i64) {
        1
    }

    fn bottom() -> (r: Self) {
        Positive(1)
    }

    fn at_least(x: i64) -> (r: Self) {
        let r = if x >= 1 {
            Positive(x)
        } else {
            Positive(1)
        };
        assert(Self::bottom_spec() == 1);
        assert(r@ == r.0);
        r
    }
}

impl HasZero for Integer {
    fn zero() -> (r: Self) {
        let r = Integer(0);
        assert(r@ == 0);
        r
    }
}

impl HasZero for Natural {
    fn zero() -> (r: Self) {
        let r = Natural(0);
        assert(r@ == 0);
        r
    }
}

impl HasOne for Integer {
    fn one() -> (r: Self) {
        let r = Integer(1);
        assert(r@ == 1);
        r
    }
}

impl HasOne for Natural {
    fn one() -> (r: Self) {
        let r = Natural(1);
        assert(r@ == 1);
        r
    }
}

impl HasOne for Positive {
    fn one() -> (r: Self) {
        let r = Positive(1);
        assert(r@ == 1);
        r
    }
}

impl Integer {
    pub fn new(n: i64) -> (r: Integer)
        ensures
            r@ == n,
    {
        Integer(n)
    }

    /// Applies `f` to the underlying value.
    pub fn map<F: Fn(i64) -> i64>(&self, f: F) -> (r: Integer)
        requires
            f.requires((self@ as i64,)),
        ensures
            f.ensures((self@ as i64,), r@ as i64),
    {
        Integer(f(self.0))
    }

    /// The sum of this value and `rhs`, as a Integer.
    pub fn add(self, rhs: Integer) -> (r: Integer)
        requires
            i64::MIN <= self@ + rhs@ <= i64::MAX,
        ensures
            r@ == self@ + rhs@,
    {
        assert(self@ == self.0 && rhs@ == rhs.0);
        let r = Integer(self.0 + rhs.0);
        assert(r@ == r.0);
        r
    }

    /// The product of this value and `rhs`, as a Integer.
    pub fn mul(self, rhs: Integer) -> (r: Integer)
        requires
            i64::MIN <= self@ * rhs@ <= i64::MAX,
        ensures
            r@ == self@ * rhs@,
    {
        assert(self@ == self.0 && rhs@ == rhs.0);
        assert(i64::MIN <= self.0 * rhs.0 <= i64::MAX);
        let r = Integer(self.0 * rhs.0);
        assert(r@ == r.0);
        r
    }

    /// The negation of this value.
    pub fn neg(self) -> (r: Integer)
        requires
            self@ > i64::MIN,
        ensures
            r@ == -self@,
    {
        Integer(-self.0)
    }
}

impl Natural {
    #[verifier::type_invariant]
    spec fn inv(self) -> bool {
        self.0 >= 0
    }

    /// The quotient of this value by `rhs`.
    pub fn div(self, rhs: Positive) -> (r: Natural)
        ensures
            r@ == self@ / rhs@,
    {
        proof {
            use_type_invariant(&self);
            use_type_invariant(&rhs);
        }
        let q = self.0 / rhs.0;
        assert(q >= 0) by (nonlinear_arith)
            requires
                q == self.0 / rhs.0,
                self.0 >= 0,
                rhs.0 >= 1,
        ;
        Natural(q)
    }

    /// The remainder of this value by `rhs`, below `rhs`.
    pub fn rem(self, rhs: Positive) -> (r: Natural)
        ensures
            r@ == self@ % rhs@,
            r@ < rhs@,
    {
        proof {
            use_type_invariant(&self);
            use_type_invariant(&rhs);
        }
        let m = self.0 % rhs.0;
        assert(0 <= m < rhs.0) by (nonlinear_arith)
            requires
                m == self.0 % rhs.0,
                self.0 >= 0,
                rhs.0 >= 1,
        ;
        Natural(m)
    }

    /// The sum of this value and `rhs`, as a Natural.
    pub fn add(self, rhs: Natural) -> (r: Natural)
        requires
            self@ + rhs@ <= i64::MAX,
        ensures
            r@ == self@ + rhs@,
    {
        proof {
            use_type_invariant(&self);
            use_type_invariant(&rhs);
        }
        assert(self@ == self.0 && rhs@ == rhs.0);
        let r = Natural(self.0 + rhs.0);
        assert(r@ == r.0);
        r
    }

    /// The sum of this value and `rhs`, as a Positive.
    pub fn add_positive(self, rhs: Positive) -> (r: Positive)
        requires
            self@ + rhs@ <= i64::MAX,
        ensures
            r@ == self@ + rhs@,
    {
        proof {
            use_type_invariant(&self);
            use_type_invariant(&rhs);
        }
        assert(self@ == self.0 && rhs@ == rhs.0);
        let r = Positive(self.0 + rhs.0);
        assert(r@ == r.0);
        r
    }

    /// The sum of this value and `rhs`, as a Many.
    pub fn add_many(self, rhs: Many) -> (r: Many)
        requires
            self@ + rhs@ <= i64::MAX,
        ensures
            r@ == self@ + rhs@,
    {
        proof {
            use_type_invariant(&self);
            use_type_invariant(&rhs);
        }
        assert(self@ == self.0 && rhs@ == rhs.0);
        let r = Many(self.0 + rhs.0);
        assert(r@ == r.0);
        r
    }

    /// The product of this value and `rhs`, as a Natural.
    pub fn mul(self, rhs: Natural) -> (r: Natural)
        requires
            self@ * rhs@ <= i64::MAX,
        ensures
            r@ == self@ * rhs@,
    {
        proof {
            use_type_invariant(&self);
            use_type_invariant(&rhs);
        }
        assert(self@ == self.0 && rhs@ == rhs.0);
        assert(self.0 * rhs.0 >= 0) by (nonlinear_arith)
            requires
                self.0 >= 0,
                rhs.0 >= 0,
        ;
        assert(i64::MIN <= self.0 * rhs.0 <= i64::MAX);
        let r = Natural(self.0 * rhs.0);
        assert(r@ == r.0);
        r
    }

    /// The product of this value and `rhs`, as a Natural.
    pub fn mul_positive(self, rhs: Positive) -> (r: Natural)
        requires
            self@ * rhs@ <= i64::MAX,
        ensures
            r@ == self@ * rhs@,
    {
        proof {
            use_type_invariant(&self);
            use_type_invariant(&rhs);
        }
        assert(self@ == self.0 && rhs@ == rhs.0);
        assert(self.0 * rhs.0 >= 0) by (nonlinear_arith)
            requires
                self.0 >= 0,
                rhs.0 >= 1,
        ;
        assert(i64::MIN <= self.0 * rhs.0 <= i64::MAX);
        let r = Natural(self.0 * rhs.0);
        assert(r@ == r.0);
        r
    }

    /// The product of this value and `rhs`, as a Natural.
    pub fn mul_many(self, rhs: Many) -> (r: Natural)
        requires
            self@ * rhs@ <= i64::MAX,
        ensures
            r@ == self@ * rhs@,
    {
        proof {
            use_type_invariant(&self);
            use_type_invariant(&rhs);
        }
        assert(self@ == self.0 && rhs@ == rhs.0);
        assert(self.0 * rhs.0 >= 0) by (nonlinear_arith)
            requires
                self.0 >= 0,
                rhs.0 >= 2,
        ;
        assert(i64::MIN <= self.0 * rhs.0 <= i64::MAX);
        let r = Natural(self.0 * rhs.0);
        assert(r@ == r.0);
        r
    }

    /// This value plus one, as a Positive.
    pub fn succ(self) -> (r: Positive)
        requires
            self@ < i64::MAX,
        ensures
            r@ == self@ + 1,
    {
        proof {
            use_type_invariant(&self);
        }
        assert(self@ == self.0);
        let r = Positive(self.0 + 1);
        assert(r@ == r.0);
        r
    }

    /// This value as a Integer.
    pub fn integer(self) -> (r: Integer)
        ensures
            r@ == self@,
    {
        proof {
            use_type_invariant(&self);
        }
        assert(self@ == self.0);
        let r = Integer(self.0);
        assert(r@ == r.0);
        r
    }
}

impl Positive {
    #[verifier::type_invariant]
    spec fn inv(self) -> bool {
        self.0 >= 1
    }

    /// Floor division of `x` by this modulus: `x == q * self + r` with `0 <= r < self`,
    /// the quotient rounding toward negative infinity.
    pub fn euclid(self, x: Integer) -> (r: (Integer, Natural))
        ensures
            r.0@ == x@ / self@,
            r.1@ == x@ % self@,
            x@ == r.0@ * self@ + r.1@,
            0 <= r.1@ < self@,
    {
        proof {
            use_type_invariant(&self);
        }
        let p = self.0;
        let (q, m) = if x.0 >= 0 {
            (x.0 / p, x.0 % p)
        } else {
            let n = -(x.0 + 1);
            let a = n / p;
            let b = n % p;
            proof {
                lemma_fundamental_div_mod(n as int, p as int);
                assert(x.0 == (-a - 1) * p + (p - 1 - b)) by (nonlinear_arith)
                    requires
                        x.0 == -(n + 1),
                        n == p * a + b,
                ;
                assert((-a - 1) * p <= x.0) by (nonlinear_arith)
                    requires
                        x.0 == (-a - 1) * p + (p - 1 - b),
                        0 <= b < p,
                ;
            }
            (-a - 1, p - 1 - b)
        };
        proof {
            lemma_fundamental_div_mod(x.0 as int, p as int);
            assert(x.0 == q * p + m && 0 <= m < p) by (nonlinear_arith)
                requires
                    x.0 >= 0 ==> q == x.0 / p && m == x.0 % p,
                    x.0 >= 0 ==> x.0 == p * (x.0 / p) + x.0 % p,
                    x.0 >= 0 ==> 0 <= x.0 % p < p,
                    x.0 < 0 ==> x.0 == q * p + m && 0 <= m < p,
            ;
            lemma_fundamental_div_mod_converse(x.0 as int, p as int, q as int, m as int);
        }
        (Integer(q), Natural(m))
    }

    /// The sum of this value and `rhs`, as a Many.
    pub fn add(self, rhs: Positive) -> (r: Many)
        requires
            self@ + rhs@ <= i64::MAX,
        ensures
            r@ == self@ + rhs@,
    {
        proof {
            use_type_invariant(&self);
            use_type_invariant(&rhs);
        }
        assert(self@ == self.0 && rhs@ == rhs.0);
        let r = Many(self.0 + rhs.0);
        assert(r@ == r.0);
        r
    }

    /// The sum of this value and `rhs`, as a Positive.
    pub fn add_natural(self, rhs: Natural) -> (r: Positive)
        requires
            self@ + rhs@ <= i64::MAX,
        ensures
            r@ == self@ + rhs@,
    {
        proof {
            use_type_invariant(&self);
            use_type_invariant(&rhs);
        }
        assert(self@ == self.0 && rhs@ == rhs.0);
        let r = Positive(self.0 + rhs.0);
        assert(r@ == r.0);
        r
    }

    /// The sum of this value and `rhs`, as a Many.
    pub fn add_many(self, rhs: Many) -> (r: Many)
        requires
            self@ + rhs@ <= i64::MAX,
        ensures
            r@ == self@ + rhs@,
    {
        proof {
            use_type_invariant(&self);
            use_type_invariant(&rhs);
        }
        assert(self@ == self.0 && rhs@ == rhs.0);
        let r = Many(self.0 + rhs.0);
        assert(r@ == r.0);
        r
    }

    /// The product of this value and `rhs`, as a Positive.
    pub fn mul(self, rhs: Positive) -> (r: Positive)
        requires
            self@ * rhs@ <= i64::MAX,
        ensures
            r@ == self@ * rhs@,
    {
        proof {
            use_type_invariant(&self);
            use_type_invariant(&rhs);
        }
        assert(self@ == self.0 && rhs@ == rhs.0);
        assert(self.0 * rhs.0 >= 1) by (nonlinear_arith)
            requires
                self.0 >= 1,
                rhs.0 >= 1,
        ;
        assert(i64::MIN <= self.0 * rhs.0 <= i64::MAX);
        let r = Positive(self.0 * rhs.0);
        assert(r@ == r.0);
        r
    }

    /// The product of this value and `rhs`, as a Natural.
    pub fn mul_natural(self, rhs: Natural) -> (r: Natural)
        requires
            self@ * rhs@ <= i64::MAX,
        ensures
            r@ == self@ * rhs@,
    {
        proof {
            use_type_invariant(&self);
            use_type_invariant(&rhs);
        }
        assert(self@ == self.0 && rhs@ == rhs.0);
        assert(self.0 * rhs.0 >= 0) by (nonlinear_arith)
            requires
                self.0 >= 1,
                rhs.0 >= 0,
        ;
        assert(i64::MIN <= self.0 * rhs.0 <= i64::MAX);
        let r = Natural(self.0 * rhs.0);
        assert(r@ == r.0);
        r
    }

    /// The product of this value and `rhs`, as a Many.
    pub fn mul_many(self, rhs: Many) -> (r: Many)
        requires
            self@ * rhs@ <= i64::MAX,
        ensures
            r@ == self@ * rhs@,
    {
        proof {
            use_type_invariant(&self);
            use_type_invariant(&rhs);
        }
        assert(self@ == self.0 && rhs@ == rhs.0);
        assert(self.0 * rhs.0 >= 2) by (nonlinear_arith)
            requires
                self.0 >= 1,
                rhs.0 >= 2,
        ;
        assert(i64::MIN <= self.0 * rhs.0 <= i64::MAX);
        let r = Many(self.0 * rhs.0);
        assert(r@ == r.0);
        r
    }

    /// This value plus one, as a Many.
    pub fn succ(self) -> (r: Many)
        requires
            self@ < i64::MAX,
        ensures
            r@ == self@ + 1,
    {
        proof {
            use_type_invariant(&self);
        }
        assert(self@ == self.0);
        let r = Many(self.0 + 1);
        assert(r@ == r.0);
        r
    }

    /// This value as a Natural.
    pub fn natural(self) -> (r: Natural)
        ensures
            r@ == self@,
    {
        proof {
            use_type_invariant(&self);
        }
        assert(self@ == self.0);
        let r = Natural(self.0);
        assert(r@ == r.0);
        r
    }

    /// This value as a Integer.
    pub fn integer(self) -> (r: Integer)
        ensures
            r@ == self@,
    {
        proof {
            use_type_invariant(&self);
        }
        assert(self@ == self.0);
        let r = Integer(self.0);
        assert(r@ == r.0);
        r
    }
}

impl Many {
    #[verifier::type_invariant]
    spec fn inv(self) -> bool {
        self.0 >= 2
    }

    /// The sum of this value and `rhs`, as a Many.
    pub fn add(self, rhs: Many) -> (r: Many)
        requires
            self@ + rhs@ <= i64::MAX,
        ensures
            r@ == self@ + rhs@,
    {
        proof {
            use_type_invariant(&self);
            use_type_invariant(&rhs);
        }
        assert(self@ == self.0 && rhs@ == rhs.0);
        let r = Many(self.0 + rhs.0);
        assert(r@ == r.0);
        r
    }

    /// The product of this value and `rhs`, as a Many.
    pub fn mul(self, rhs: Many) -> (r: Many)
        requires
            self@ * rhs@ <= i64::MAX,
        ensures
            r@ == self@ * rhs@,
    {
        proof {
            use_type_invariant(&self);
            use_type_invariant(&rhs);
        }
        assert(self@ == self.0 && rhs@ == rhs.0);
        assert(self.0 * rhs.0 >= 2) by (nonlinear_arith)
            requires
                self.0 >= 2,
                rhs.0 >= 2,
        ;
        assert(i64::MIN <= self.0 * rhs.0 <= i64::MAX);
        let r = Many(self.0 * rhs.0);
        assert(r@ == r.0);
        r
    }

    /// The product of this value and `rhs`, as a Many.
    pub fn mul_positive(self, rhs: Positive) -> (r: Many)
        requires
            self@ * rhs@ <= i64::MAX,
        ensures
            r@ == self@ * rhs@,
    {
        proof {
            use_type_invariant(&self);
            use_type_invariant(&rhs);
        }
        assert(self@ == self.0 && rhs@ == rhs.0);
        assert(self.0 * rhs.0 >= 2) by (nonlinear_arith)
            requires
                self.0 >= 2,
                rhs.0 >= 1,
        ;
        assert(i64::MIN <= self.0 * rhs.0 <= i64::MAX);
        let r = Many(self.0 * rhs.0);
        assert(r@ == r.0);
        r
    }

    /// This value as a Positive.
    pub fn positive(self) -> (r: Positive)
        ensures
            r@ == self@,
    {
        proof {
            use_type_invariant(&self);
        }
        assert(self@ == self.0);
        let r = Positive(self.0);
        assert(r@ == r.0);
        r
    }

    /// This value as a Natural.
    pub fn natural(self) -> (r: Natural)
        ensures
            r@ == self@,
    {
        proof {
            use_type_invariant(&self);
        }
        assert(self@ == self.0);
        let r = Natural(self.0);
        assert(r@ == r.0);
        r
    }

    /// This value as a Integer.
    pub fn integer(self) -> (r: Integer)
        ensures
            r@ == self@,
    {
        proof {
            use_type_invariant(&self);
        }
        assert(self@ == self.0);
        let r = Integer(self.0);
        assert(r@ == r.0);
        r
    }
}

impl Zero {
    pub fn integer(self) -> (r: Integer)
        ensures
            r@ == 0,
    {
        Integer::zero()
    }

    pub fn natural(self) -> (r: Natural)
        ensures
            r@ == 0,
    {
        Natural::zero()
    }
}

impl One {
    pub fn integer(self) -> (r: Integer)
        ensures
            r@ == 1,
    {
        Integer::one()
    }

    pub fn natural(self) -> (r: Natural)
        ensures
            r@ == 1,
    {
        Natural::one()
    }

    pub fn positive(self) -> (r: Positive)
        ensures
            r@ == 1,
    {
        Positive::one()
    }
}

/// The sum of two positive numbers is always greater than one, so it is a Many; their
/// product is at least one, so it is a Positive.
pub proof fn lemma_positive_closure(a: Positive, b: Positive)
    ensures
        Many::can_rep_spec(a@ + b@),
        Positive::can_rep_spec(a@ * b@),
{
    let x = a@;
    let y = b@;
    assert(x * y >= 1) by (nonlinear_arith)
        requires
            x >= 1,
            y >= 1,
    ;
}

} // verus!
