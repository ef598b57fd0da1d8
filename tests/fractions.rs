use mixed_point::integral::{Integer, LowerBoundedRep, Natural, Positive};
use mixed_point::rational::{Fractional, Real, WithFraction};

fn ratio(numer: i64, denom: i64) -> Real {
    Real::new(Integer::new(numer), Positive::at_least(denom))
}

fn frac(numer: i64, denom: i64) -> Fractional {
    Fractional::rep(Natural::at_least(numer), Positive::at_least(denom)).unwrap()
}

fn with(whole: i64, numer: i64) -> WithFraction<Integer> {
    WithFraction::new(Integer::new(whole), frac(numer, 10))
}

#[test]
fn test_real_fractionalize_positive() {
    assert_eq!(with(0, 0), ratio(0, 10).fractionalize());
    assert_eq!(with(0, 5), ratio(5, 10).fractionalize());
    assert_eq!(with(5, 0), ratio(50, 10).fractionalize());
    assert_eq!(with(5, 5), ratio(55, 10).fractionalize());
}

#[test]
fn test_real_fractionalize_negative() {
    assert_eq!(with(-1, 9), ratio(-1, 10).fractionalize());
    assert_eq!(with(-1, 5), ratio(-5, 10).fractionalize());
    assert_eq!(with(-5, 0), ratio(-50, 10).fractionalize());
    assert_eq!(with(-6, 9), ratio(-51, 10).fractionalize());
    assert_eq!(with(-6, 5), ratio(-55, 10).fractionalize());
}

#[test]
fn fractional_rejects_one_and_more() {
    assert!(Fractional::rep(Natural::at_least(10), Positive::at_least(10)).is_none());
    assert!(Fractional::rep(Natural::at_least(11), Positive::at_least(10)).is_none());
    assert_eq!(Natural::at_least(9), frac(9, 10).numer());
    assert_eq!(Positive::at_least(10), frac(9, 10).denom());
}
