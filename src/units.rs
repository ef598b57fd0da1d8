use vstd::prelude::*;

use crate::integral::{Integer, Natural};

verus! {

/// A count of edges, the smallest unit of the clock.
#[derive(Debug, PartialEq, Eq, Clone, Copy)]
pub struct Edges(pub Integer);

/// A count of years.
#[derive(Debug, PartialEq, Eq, Clone, Copy)]
pub struct Years(pub Integer);

/// An edge counted from the origin.
#[derive(Debug, PartialEq, Eq, Clone, Copy)]
pub struct Edge(pub Integer);

/// A day counted from the origin.
#[derive(Debug, PartialEq, Eq, Clone, Copy)]
pub struct Day(pub Integer);

/// A year counted from the origin.
#[derive(Debug, PartialEq, Eq, Clone, Copy)]
pub struct Year(pub Integer);

/// A day counted from the start of its year.
#[derive(Debug, PartialEq, Eq, Clone, Copy)]
pub struct YearDay(pub Natural);

/// A count of days.
#[derive(Debug, PartialEq, Eq, Clone, Copy)]
pub struct Days(pub Integer);

impl Edges {
    pub fn new(n: Integer) -> (r: Edges)
        ensures
            r.0 == n,
    {
        Edges(n)
    }
}

impl Years {
    pub fn new(n: Integer) -> (r: Years)
        ensures
            r.0 == n,
    {
        Years(n)
    }
}

impl Edge {
    pub fn new(n: Integer) -> (r: Edge)
        ensures
            r.0 == n,
    {
        Edge(n)
    }

    /// The count of edges from the origin to this edge.
    pub fn edges(self) -> (r: Edges)
        ensures
            r.0 == self.0,
    {
        Edges(self.0)
    }
}

impl Day {
    pub fn new(n: Integer) -> (r: Day)
        ensures
            r.0 == n,
    {
        Day(n)
    }

    /// The count of days from the origin to this day.
    pub fn days(self) -> (r: Days)
        ensures
            r.0 == self.0,
    {
        Days(self.0)
    }
}

impl Year {
    pub fn new(n: Integer) -> (r: Year)
        ensures
            r.0 == n,
    {
        Year(n)
    }
}

impl YearDay {
    pub fn new(n: Natural) -> (r: YearDay)
        ensures
            r.0 == n,
    {
        YearDay(n)
    }

    /// The count of days from the start of the year to this day.
    pub fn days(self) -> (r: Days)
        ensures
            r.0@ == self.0@,
    {
        Days(self.0.integer())
    }
}

impl Days {
    pub fn new(n: Integer) -> (r: Days)
        ensures
            r.0 == n,
    {
        Days(n)
    }
}

} // verus!
