use vstd::prelude::*;

use crate::integral::{group_integral, ConstrainedRep, Integer, Natural, Positive};

verus! {

broadcast use group_integral;

/// A rational number `numer / denom`.
#[derive(Debug, PartialEq, Eq, Clone, Copy)]
pub struct Real {
    numer: Integer,
    denom: Positive,
}

/// A rational number in `[0, 1)`: `numer / denom` with `numer < denom`.
#[derive(Debug, PartialEq, Eq, Clone, Copy)]
pub struct Fractional {
    numer: Natural,
    denom: Positive,
}

/// A whole part together with a fractional part.
#[derive(Debug, PartialEq, Eq, Clone, Copy)]
pub struct WithFraction<X> {
    pub whole: X,
    pub fraction: Fractional,
}

impl View for Real {
    type V = (int, int);

    closed spec fn view(&self) -> (int, int) {
        (self.numer@, self.denom@)
    }
}

impl View for Fractional {
    type V = (int, int);

    closed spec fn view(&self) -> (int, int) {
        (self.numer@, self.denom@)
    }
}

impl Fractional {
    #[verifier::type_invariant]
    spec fn inv(self) -> bool {
        self.numer@ < self.denom@
    }

    /// `numer / denom`, or nothing where it is not below one.
    pub fn rep(numer: Natural, denom: Positive) -> (r: Option<Fractional>)
        ensures
            r is Some <==> numer@ < denom@,
            r is Some ==> r->0@ == (numer@, denom@),
    {
        if numer.out() < denom.out() {
            Some(Fractional { numer, denom })
        } else {
            None
        }
    }

    pub fn numer(&self) -> (r: Natural)
        ensures
            r@ == self@.0,
            r@ < self@.1,
    {
        proof {
            use_type_invariant(self);
        }
        self.numer
    }

    pub fn denom(&self) -> (r: Positive)
        ensures
            r@ == self@.1,
    {
        self.denom
    }
}

impl Real {
    /// The number `numer / denom`.
    pub fn new(numer: Integer, denom: Positive) -> (r: Real)
        ensures
            r@ == (numer@, denom@),
    {
        Real { numer, denom }
    }

    pub fn numer(&self) -> (r: Integer)
        ensures
            r@ == self@.0,
    {
        self.numer
    }

    pub fn denom(&self) -> (r: Positive)
        ensures
            r@ == self@.1,
    {
        self.denom
    }

    /// Splits the number into its floor and the fraction left over, in `[0, 1)`.
    pub fn fractionalize(self) -> (r: WithFraction<Integer>)
        ensures
            r.whole@ == self@.0 / self@.1,
            r.fraction@ == (self@.0 % self@.1, self@.1),
            r.whole@ * self@.1 + r.fraction@.0 == self@.0,
    {
        let (whole, rest) = self.denom.euclid(self.numer);
        WithFraction::new(whole, Fractional { numer: rest, denom: self.denom })
    }
}

impl<X> WithFraction<X> {
    pub fn new(whole: X, fraction: Fractional) -> (r: WithFraction<X>)
        ensures
            r.whole == whole,
            r.fraction == fraction,
    {
        WithFraction { whole, fraction }
    }
}

} // verus!
