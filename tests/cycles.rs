use mixed_point::cycle::{Cycle, CyclePoint, IdentityPeriodRepresentation, LimitedCycle, Period, SimpleCycle};
use mixed_point::integral::{Integer, LowerBoundedRep, Natural, Positive};
use mixed_point::rational::{Fractional, Real, WithFraction};

fn integer(x: i64) -> Integer {
    Integer::new(x)
}

fn natural(x: i64) -> Natural {
    Natural::at_least(x)
}

fn pos(x: i64) -> Positive {
    Positive::at_least(x)
}

#[test]
fn test_limited_cycle_wind() {
    for p in 1..7 {
        for l in 1..3 {
            let cycle = LimitedCycle::new(pos(p), pos(l));
            let mut q = 0;
            let mut r = 0;
            for k in 0..30 {
                assert_eq!(cycle.point(natural(q), natural(r)), Some(cycle.wind(&natural(k))));
                r += 1;
                if r == p && q < l {
                    q += 1;
                    r = 0;
                }
            }
        }
    }
}

#[test]
fn test_period_construction() {
    let period: Period<IdentityPeriodRepresentation> = Period::new(pos(5));
    assert_eq!(period.point(integer(5), natural(4)), Some(period.wind(&integer(29))));
}

#[test]
fn test_period_positive() {
    for p in 1..10 {
        let period: Period<IdentityPeriodRepresentation> = Period::new(pos(p));
        let mut q = 0;
        let mut r = 0;
        for k in 0..20 {
            assert_eq!(period.point(integer(q), natural(r)), Some(period.wind(&integer(k))));
            r += 1;
            if r == p {
                q += 1;
                r = 0;
            }
        }
    }
}

#[test]
fn test_period_float_positive() {
    let period: Period<IdentityPeriodRepresentation> = Period::new(pos(1));
    let zero = Fractional::rep(natural(0), pos(1)).unwrap();
    assert_eq!(
        WithFraction::new(period.point(integer(1), natural(0)).unwrap(), zero),
        period.wind_with_float(Real::new(integer(1), pos(1)))
    );
}

#[test]
fn period_wind_with_fraction_negative() {
    let period: Period<IdentityPeriodRepresentation> = Period::new(pos(4));
    let fraction = Fractional::rep(natural(3), pos(4)).unwrap();
    let wound = period.wind_with_float(Real::new(integer(-5), pos(4)));
    assert_eq!(WithFraction::new(period.point(integer(-1), natural(2)).unwrap(), fraction), wound);
}

#[test]
fn test_period_negative() {
    for p in 1..10 {
        let period: Period<IdentityPeriodRepresentation> = Period::new(pos(p));
        let mut q = 0;
        let mut r = 0;
        for k in 0..20 {
            assert_eq!(period.point(integer(q), natural(r)), Some(period.wind(&integer(-k))));
            if r == 0 {
                q -= 1;
                r = p;
            }
            r -= 1;
        }
    }
}

#[test]
fn test_simple_cycle_point() {
    {
        let cycle = SimpleCycle::new(pos(1));
        assert_eq!(Some(CyclePoint::new(natural(4), natural(0))), cycle.point(natural(4), natural(0)).map(|b| b.point));
        assert_eq!(None, cycle.point(natural(4), natural(1)).map(|b| b.point));
    }
    {
        let cycle = SimpleCycle::new(pos(3));
        assert_eq!(Some(CyclePoint::new(natural(4), natural(2))), cycle.point(natural(4), natural(2)).map(|b| b.point));
        assert_eq!(None, cycle.point(natural(4), natural(3)).map(|b| b.point));
    }
}

#[test]
fn test_simple_cycle_wind() {
    for p in 1..10 {
        let cycle = SimpleCycle::new(pos(p));
        let mut q = 0;
        let mut r = 0;
        for k in 0..20 {
            assert_eq!(cycle.point(natural(q), natural(r)), Some(cycle.wind(&natural(k))));
            r += 1;
            if r == p {
                q += 1;
                r = 0;
            }
        }
    }
}

#[test]
fn cycles_round_trip() {
    let simple = SimpleCycle::new(pos(7));
    let limited = LimitedCycle::new(pos(7), pos(2));
    let period: Period<IdentityPeriodRepresentation> = Period::new(pos(7));
    for k in [0i64, 1, 6, 7, 13, 14, 15, 100, i64::MAX] {
        assert_eq!(natural(k), simple.unwind(&simple.wind(&natural(k)).point));
        assert_eq!(natural(k), limited.unwind(&limited.wind(&natural(k)).point));
        assert_eq!(integer(k), period.unwind(&period.wind(&integer(k)).point));
    }
}

#[test]
fn limited_cycle_saturates_into_phase() {
    let limited = LimitedCycle::new(pos(7), pos(2));
    let point = limited.wind(&natural(100)).point;
    assert_eq!(CyclePoint::new(natural(2), natural(86)), point);
    assert!(limited.is_norm(&point));
    assert!(!limited.is_norm(&CyclePoint::new(natural(1), natural(7))));
    let simple = SimpleCycle::new(pos(7));
    assert_eq!(CyclePoint::new(natural(14), natural(2)), simple.wind(&natural(100)).point);
}

#[test]
fn limited_cycle_product() {
    let inner = LimitedCycle::new(pos(10), pos(3));
    let outer = LimitedCycle::new(pos(3), pos(2));
    let both = inner.mul(outer);
    assert_eq!(pos(30), both.size());
    assert_eq!(pos(2), both.limit());
    assert_eq!(CyclePoint::new(natural(2), natural(40)), both.wind(&natural(100)).point);
}
