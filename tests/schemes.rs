use mixed_point::cycle::{Cycle, IdentityPeriodRepresentation, LimitedCycle, Period, SimpleCycle};
use mixed_point::filter::{Filter, FilterPoint, SimpleFilter};
use mixed_point::integral::{Integer, LowerBoundedRep, Natural, Positive};
use mixed_point::legend::PhaseLegend;
use mixed_point::mixed::{BoundMixedPoint, Mixed, MixedPoint, MixedPointLegend, SimpleMixed};

fn integer(x: i64) -> Integer {
    Integer::new(x)
}

fn natural(x: i64) -> Natural {
    Natural::at_least(x)
}

fn pos(x: i64) -> Positive {
    Positive::at_least(x)
}

fn mixed() -> SimpleMixed<IdentityPeriodRepresentation, SimpleCycle, 2> {
    SimpleMixed::from_factors([SimpleCycle::new(pos(2)), SimpleCycle::new(pos(3))])
}

#[test]
fn example_point_scheme() {
    let m = mixed();
    assert_eq!(MixedPoint::new(integer(0), [natural(0), natural(0)]), m.wind(integer(0)).point);
    assert_eq!(MixedPoint::new(integer(0), [natural(1), natural(0)]), m.wind(integer(1)).point);
    assert_eq!(MixedPoint::new(integer(0), [natural(0), natural(1)]), m.wind(integer(2)).point);
    assert_eq!(MixedPoint::new(integer(1), [natural(1), natural(0)]), m.wind(integer(7)).point);
    assert_eq!(MixedPoint::new(integer(1), [natural(1), natural(2)]), m.wind(integer(11)).point);
}

#[test]
fn simple_mixed_bind() {
    let m = mixed();
    let good_point = MixedPoint::new(integer(1), [natural(1), natural(2)]);
    let bad_point = MixedPoint::new(integer(1), [natural(2), natural(2)]);
    assert_eq!(Some(BoundMixedPoint::new(&m, good_point.clone())), m.bind(good_point));
    assert_eq!(None, m.bind(bad_point));
}

#[test]
fn simple_mixed_unwind() {
    let m = mixed();
    assert_eq!(integer(0), m.unwind(&MixedPoint::new(integer(0), [natural(0), natural(0)])));
    assert_eq!(integer(1), m.unwind(&MixedPoint::new(integer(0), [natural(1), natural(0)])));
    assert_eq!(integer(2), m.unwind(&MixedPoint::new(integer(0), [natural(0), natural(1)])));
    assert_eq!(integer(16), m.unwind(&MixedPoint::new(integer(2), [natural(0), natural(2)])));
    assert_eq!(integer(11), m.unwind(&MixedPoint::new(integer(1), [natural(1), natural(2)])));
    assert_eq!(integer(-1), m.unwind(&MixedPoint::new(integer(-1), [natural(1), natural(2)])));
    assert_eq!(integer(-3), m.unwind(&MixedPoint::new(integer(-1), [natural(1), natural(1)])));
}

#[test]
fn mixed_binding_rejects_out_of_range_digits() {
    let m: SimpleMixed<IdentityPeriodRepresentation, SimpleCycle, 2> =
        SimpleMixed::from_simple_factors([pos(6), pos(2)]);
    assert_eq!(pos(12), mixed_period_size(&m));
    assert_eq!(None, m.bind(MixedPoint::new(integer(0), [natural(6), natural(0)])));
    let good = MixedPoint::new(integer(0), [natural(5), natural(1)]);
    assert_eq!(Some(BoundMixedPoint::new(&m, good)), m.bind(good));
    assert_eq!(Some(BoundMixedPoint::new(&m, good)), m.point(integer(0), [natural(5), natural(1)]));
    assert_eq!(2, m.num_factors());
}

fn mixed_period_size(m: &SimpleMixed<IdentityPeriodRepresentation, SimpleCycle, 2>) -> Positive {
    m.period.size()
}

#[test]
fn mixed_round_trip_and_phase() {
    let m = mixed();
    for k in [-13i64, -7, -1, 0, 5, 6, 11, 1000, i64::MAX] {
        assert_eq!(integer(k), m.unwind(&m.wind(integer(k)).point));
    }
    let bound = m.wind(integer(11));
    assert_eq!([natural(1), natural(2)], bound.phase().phase);
}

#[test]
fn legends() {
    let legend = MixedPointLegend::with_names("aeon", ["a", "b"]);
    assert_eq!("aeon", legend.cycle);
    assert_eq!(PhaseLegend::new(["a", "b"]), legend.phase);
}

fn filter_point(c: i64, p0: i64, p1: i64, r: i64) -> FilterPoint<2, Integer> {
    FilterPoint::new(MixedPoint::new(integer(c), [natural(p0), natural(p1)]), natural(r))
}

#[test]
fn example_filter_scheme() {
    let filter = SimpleFilter::new(
        Period::<IdentityPeriodRepresentation>::new(pos(12)),
        [SimpleCycle::new(pos(6)), SimpleCycle::new(pos(2))],
    );
    let point = |k: i64| filter.wind(integer(k)).point;
    assert_eq!(filter_point(0, 0, 0, 0), point(0));
    assert_eq!(filter_point(0, 0, 0, 1), point(1));
    assert_eq!(filter_point(0, 1, 0, 0), point(2));
    assert_eq!(filter_point(0, 1, 0, 1), point(3));
    assert_eq!(filter_point(0, 2, 0, 0), point(4));
    assert_eq!(filter_point(0, 2, 0, 1), point(5));
    assert_eq!(filter_point(0, 0, 1, 0), point(6));
    assert_eq!(filter_point(0, 0, 1, 1), point(7));
    assert_eq!(filter_point(3, 0, 1, 1), point(43));
    assert_eq!(filter_point(3, 1, 1, 1), point(45));
    assert_eq!(filter_point(-1, 2, 1, 1), point(-1));
}

#[test]
fn example_limit_filter_scheme() {
    let filter = SimpleFilter::new(
        Period::<IdentityPeriodRepresentation>::new(pos(50)),
        [LimitedCycle::new(pos(10), pos(3)), LimitedCycle::new(pos(3), pos(2))],
    );
    let point = |k: i64| filter.wind(integer(k)).point;
    assert_eq!(filter_point(0, 0, 0, 0), point(0));
    assert_eq!(filter_point(0, 0, 0, 1), point(1));
    assert_eq!(filter_point(0, 2, 0, 2), point(8));
    assert_eq!(filter_point(0, 2, 0, 3), point(9));
    assert_eq!(filter_point(0, 0, 1, 0), point(10));
    assert_eq!(filter_point(0, 1, 2, 2), point(25));
    assert_eq!(filter_point(0, 2, 2, 3), point(29));
    assert_eq!(filter_point(0, 2, 3, 13), point(49));
    assert_eq!(filter_point(1, 0, 0, 0), point(50));
    assert_eq!(filter_point(-1, 2, 3, 13), point(-1));
    assert_eq!(filter_point(-1, 2, 3, 1), point(-13));
    assert_eq!(filter_point(-1, 2, 3, 0), point(-14));
    assert_eq!(filter_point(-1, 1, 3, 2), point(-15));
}

#[test]
fn filter_round_trip_and_binding() {
    let filter = SimpleFilter::new(
        Period::<IdentityPeriodRepresentation>::new(pos(50)),
        [LimitedCycle::new(pos(10), pos(3)), LimitedCycle::new(pos(3), pos(2))],
    );
    for k in [0i64, 1, 9, 25, 49, 50, 51, 1234, i64::MAX] {
        assert_eq!(integer(k), filter.unwind(&filter.wind(integer(k)).point));
    }
    let bound = filter.point(integer(0), [natural(9), natural(9)], natural(99)).unwrap();
    assert_eq!(filter_point(0, 9, 9, 99), bound.point);
}
