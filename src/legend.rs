use vstd::prelude::*;

use crate::integral::{HasZero, Natural};

verus! {

/// The names of the digit positions of a phase, least significant first.
#[derive(Debug, PartialEq, Eq, Clone, Copy)]
pub struct PhaseLegend<'a, const N: usize>(pub [&'a str; N]);

/// A phase to be presented with the names of its positions, under a label.
#[derive(Debug, PartialEq, Eq, Clone, Copy)]
pub struct PhaseWithLegend<'a, 'b, const N: usize> {
    pub phase: [Natural; N],
    pub legend: &'a PhaseLegend<'b, N>,
    pub label: &'b str,
}

impl<'a, const N: usize> PhaseLegend<'a, N> {
    pub fn new(names: [&'a str; N]) -> (r: PhaseLegend<'a, N>)
        ensures
            r.0 == names,
    {
        PhaseLegend(names)
    }

    /// Pairs each digit of `phase` with the name of its position.
    pub fn name(&self, phase: [Natural; N]) -> (r: [(&'a str, Natural); N])
        ensures
            forall|i: int| 0 <= i < N ==> #[trigger] r[i] == (self.0[i], phase[i]),
    {
        let mut named: [(&'a str, Natural); N] = [("", Natural::zero()); N];
        let mut i: usize = 0;
        while i < N
            invariant
                i <= N,
                forall|j: int| 0 <= j < i ==> #[trigger] named[j] == (self.0[j], phase[j]),
            decreases N - i,
        {
            named[i] = (self.0[i], phase[i]);
            i = i + 1;
        }
        named
    }
}

impl<'a, 'b, const N: usize> PhaseWithLegend<'a, 'b, N> {
    pub fn new(phase: [Natural; N], legend: &'a PhaseLegend<'b, N>, label: &'b str) -> (r:
        PhaseWithLegend<'a, 'b, N>)
        ensures
            r.phase == phase,
            r.legend == legend,
            r.label == label,
    {
        PhaseWithLegend { phase, legend, label }
    }
}

} // verus!
