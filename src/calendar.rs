use vstd::prelude::*;

use crate::cycle::{Cycle, IdentityPeriodRepresentation, SimpleCycle};
use crate::integral::{group_integral, ConstrainedRep, HasZero, Integer, LowerBoundedRep, Natural, Positive};
use crate::legend::PhaseLegend;
use crate::mixed::{
    lemma_simple_mixed_digits, phase_sizes, phase_view, prefix_product, radix_digits, Mixed,
    SimpleMixed,
};
use crate::units::YearDay;

verus! {

broadcast use group_integral;

pub type CalendarType = SimpleMixed<IdentityPeriodRepresentation, SimpleCycle, 4>;

/// The sizes of the calendar's digits: point, arc, spoke and period.
pub open spec fn calendar_sizes() -> Seq<int> {
    seq![8, 3, 3, 5]
}

/// The number of days that the calendar's digits span.
pub open spec fn calendar_span() -> int {
    360
}

/// The calendar's scheme: the days of a year as point, arc, spoke and period.
pub fn calendar() -> (r: CalendarType)
    ensures
        r.sizes() == calendar_sizes(),
        r.is_tiled(),
        r.period.size_spec() == calendar_span(),
{
    let sizes = [Positive::at_least(8), Positive::at_least(3), Positive::at_least(3), Positive::at_least(5)];
    proof {
        let s = calendar_sizes();
        assert(phase_sizes(sizes) =~= s);
        assert(prefix_product(s, 0) == 1);
        assert(prefix_product(s, 1) == 8);
        assert(prefix_product(s, 2) == 24);
        assert(prefix_product(s, 3) == 72);
        assert(prefix_product(s, 4) == 360);
    }
    SimpleMixed::from_simple_factors(sizes)
}

/// The names of the calendar's digits.
pub fn calendar_legend() -> (r: PhaseLegend<'static, 4>)
    ensures
        r.0 == ["point", "arc", "spoke", "period"],
{
    PhaseLegend::new(["point", "arc", "spoke", "period"])
}

/// A day within the span of the calendar's digits.
#[derive(Debug, PartialEq, Eq, Clone, Copy)]
pub struct Span(pub [Natural; 4]);

/// A day of the year: within the calendar's span, or in the interstice after it.
#[derive(Debug, PartialEq, Eq, Clone, Copy)]
pub enum Calendar {
    Span(Span),
    Interstice(Natural),
}

/// Whether every digit is below its size.
pub open spec fn is_calendar_phase(phase: Seq<int>) -> bool {
    forall|k: int| 0 <= k < 4 ==> #[trigger] phase[k] < calendar_sizes()[k]
}

impl Span {
    /// The span of these digits, or nothing where a digit is not below its size.
    pub fn from_phase(phase: [Natural; 4]) -> (r: Option<Span>)
        ensures
            r is Some <==> is_calendar_phase(phase_view(phase)),
            r is Some ==> r == Some(Span(phase)),
    {
        let scheme = calendar();
        match scheme.point(Integer::zero(), phase) {
            Some(b) => Some(Span(b.phase().phase)),
            None => None,
        }
    }

    /// The span of a day of the year, or, for a day past the span, how far past it is.
    pub fn fill_phase(day: YearDay) -> (r: Result<Span, Natural>)
        ensures
            r is Err <==> day.0@ >= calendar_span(),
            r is Err ==> r->Err_0@ == day.0@ - calendar_span(),
            r is Ok ==> phase_view(r->Ok_0.0) == radix_digits(calendar_sizes(), day.0@),
    {
        let scheme = calendar();
        let excess = day.0.out() - scheme.period.size().out();
        if excess >= 0 {
            Err(Natural::at_least(excess))
        } else {
            let point = scheme.wind(day.0.integer());
            proof {
                lemma_simple_mixed_digits(&scheme, day.0@);
            }
            Ok(Span(point.phase().phase))
        }
    }

    /// Each digit with the name of its position.
    pub fn name(&self) -> (r: [(&'static str, Natural); 4])
        ensures
            forall|i: int| 0 <= i < 4 ==> #[trigger] r[i] == (calendar_legend_names()[i], self.0[i]),
    {
        calendar_legend().name(self.0)
    }
}

/// The names of the calendar's digits.
pub open spec fn calendar_legend_names() -> [&'static str; 4] {
    ["point", "arc", "spoke", "period"]
}

impl Calendar {
    /// The calendar day of a day of the year.
    pub fn from_year_day(day: YearDay) -> (r: Calendar)
        ensures
            day.0@ >= calendar_span() ==> r is Interstice && r->Interstice_0@ == day.0@ - calendar_span(),
            day.0@ < calendar_span() ==> r is Span && phase_view(r->Span_0.0) == radix_digits(
                calendar_sizes(),
                day.0@,
            ),
    {
        match Span::fill_phase(day) {
            Ok(span) => Calendar::Span(span),
            Err(interstice) => Calendar::Interstice(interstice),
        }
    }
}

} // verus!
