use vstd::prelude::*;

use core::marker::PhantomData;

use crate::calendar::Calendar;
use crate::clock::Clock;
use crate::decimal::{append_decimal, decimal};
use crate::depth::{depth_year, depth_year_fits, Depth};
use crate::integral::{ConstrainedRep, Integer, Natural};
use crate::mixed::{phase_view, MixedPoint};
use crate::time::{Date, Time};
use crate::units::Year;

verus! {

/// Writes values of `T` as text.
pub trait Formatter<T> {
    /// Whether the value can be written.
    spec fn can_format(&self, data: T) -> bool;

    /// The text of the value.
    spec fn text(&self, data: T) -> Seq<char>;

    /// Appends the text of `data` to `buffer`.
    fn fmt(&self, buffer: &mut String, data: &T)
        requires
            self.can_format(*data),
        ensures
            final(buffer)@ == old(buffer)@ + self.text(*data),
    ;

    /// The text of `data`.
    fn format(&self, data: &T) -> (r: String)
        requires
            self.can_format(*data),
        ensures
            r@ == self.text(*data),
    {
        let mut buffer = String::new();
        self.fmt(&mut buffer, data);
        buffer
    }
}

/// Writes a number of one kind in decimal.
#[derive(Debug)]
pub struct ConstrainedRepFormatter<C> {
    _c_marker: PhantomData<C>,
}

pub type IntegerFormatter = ConstrainedRepFormatter<Integer>;

pub type NaturalFormatter = ConstrainedRepFormatter<Natural>;

impl<C> ConstrainedRepFormatter<C> {
    pub fn new() -> (r: ConstrainedRepFormatter<C>) {
        ConstrainedRepFormatter { _c_marker: PhantomData }
    }
}

impl<C: ConstrainedRep> Formatter<C> for ConstrainedRepFormatter<C> {
    open spec fn can_format(&self, data: C) -> bool {
        true
    }

    open spec fn text(&self, data: C) -> Seq<char> {
        decimal(data@)
    }

    fn fmt(&self, buffer: &mut String, data: &C) {
        append_decimal(buffer, data.out());
    }
}

/// The digits that a phase shows, most significant first: all of them, or as many of the
/// most significant as the precision asks for.
pub open spec fn shown_digits(phase: Seq<int>, precision: Option<usize>) -> Seq<int> {
    let n = phase.len();
    let k = match precision {
        Some(p) => if p < n {
            p as int
        } else {
            n as int
        },
        None => n as int,
    };
    Seq::new(k as nat, |i: int| phase[n - 1 - i])
}

/// The decimal texts of `items`, with `separator` between each two.
pub open spec fn joined(separator: Seq<char>, items: Seq<int>) -> Seq<char>
    decreases items.len(),
{
    if items.len() == 0 {
        Seq::empty()
    } else if items.len() == 1 {
        decimal(items[0])
    } else {
        joined(separator, items.drop_last()) + separator + decimal(items.last())
    }
}

/// Writes a phase, most significant digit first.
#[derive(Debug)]
pub struct PhaseFormatter<'a> {
    pub separator: &'a str,
    pub number: NaturalFormatter,
    pub precision: Option<usize>,
}

impl<'a> PhaseFormatter<'a> {
    pub fn new(separator: &'a str, number: NaturalFormatter, precision: Option<usize>) -> (r:
        PhaseFormatter<'a>)
        ensures
            r.separator == separator,
            r.precision == precision,
    {
        PhaseFormatter { separator, number, precision }
    }

    pub fn standard_with_precision(separator: &'a str, precision: Option<usize>) -> (r: PhaseFormatter<'a>)
        ensures
            r.separator == separator,
            r.precision == precision,
    {
        PhaseFormatter { separator, number: ConstrainedRepFormatter::new(), precision }
    }

    pub fn standard(separator: &'a str) -> (r: PhaseFormatter<'a>)
        ensures
            r.separator == separator,
            r.precision is None,
    {
        PhaseFormatter { separator, number: ConstrainedRepFormatter::new(), precision: None }
    }
}

impl<'a, const N: usize> Formatter<[Natural; N]> for PhaseFormatter<'a> {
    open spec fn can_format(&self, data: [Natural; N]) -> bool {
        true
    }

    open spec fn text(&self, data: [Natural; N]) -> Seq<char> {
        joined(self.separator@, shown_digits(phase_view(data), self.precision))
    }

    fn fmt(&self, buffer: &mut String, data: &[Natural; N]) {
        let shown: usize = match self.precision {
            Some(p) => if p < N {
                p
            } else {
                N
            },
            None => N,
        };
        let ghost items = shown_digits(phase_view(*data), self.precision);
        let mut i: usize = 0;
        while i < shown
            invariant
                i <= shown,
                shown == items.len(),
                shown <= N,
                items == shown_digits(phase_view(*data), self.precision),
                buffer@ == old(buffer)@ + joined(self.separator@, items.take(i as int)),
            decreases shown - i,
        {
            let ghost before = buffer@;
            if i > 0 {
                buffer.append(self.separator);
            }
            append_decimal(buffer, data[N - 1 - i].out());
            proof {
                let next = items.take(i + 1);
                assert(next.drop_last() =~= items.take(i as int));
                assert(next.last() == items[i as int]);
                if i == 0 {
                    assert(items.take(0) =~= Seq::<int>::empty());
                }
                assert(buffer@ =~= old(buffer)@ + joined(self.separator@, next));
            }
            i = i + 1;
        }
        assert(items.take(shown as int) =~= items);
    }
}

/// Writes a point: its outer count, a separator, then its phase.
#[derive(Debug)]
pub struct MixedPointFormatter<'a, Cycle, C: Formatter<Cycle>> {
    pub separator: &'a str,
    pub cycle: C,
    pub phase: PhaseFormatter<'a>,
    pub marker: PhantomData<Cycle>,
}

impl<'a, Cycle, C: Formatter<Cycle>> MixedPointFormatter<'a, Cycle, C> {
    pub fn new(separator: &'a str, cycle: C, phase: PhaseFormatter<'a>) -> (r: MixedPointFormatter<
        'a,
        Cycle,
        C,
    >)
        ensures
            r.separator == separator,
            r.cycle == cycle,
            r.phase == phase,
    {
        MixedPointFormatter { separator, cycle, phase, marker: PhantomData }
    }
}

impl<'a, const N: usize, Cycle, C: Formatter<Cycle>> Formatter<MixedPoint<N, Cycle>> for MixedPointFormatter<
    'a,
    Cycle,
    C,
> {
    open spec fn can_format(&self, data: MixedPoint<N, Cycle>) -> bool {
        self.cycle.can_format(data.cycle)
    }

    open spec fn text(&self, data: MixedPoint<N, Cycle>) -> Seq<char> {
        self.cycle.text(data.cycle) + self.separator@ + self.phase.text(data.phase)
    }

    fn fmt(&self, buffer: &mut String, data: &MixedPoint<N, Cycle>) {
        self.cycle.fmt(buffer, &data.cycle);
        buffer.append(self.separator);
        self.phase.fmt(buffer, &data.phase);
        assert(buffer@ =~= old(buffer)@ + self.text(*data));
    }
}

} // verus!
