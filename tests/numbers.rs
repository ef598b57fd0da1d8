use mixed_point::integral::{ConstrainedRep, HasOne, Integer, LowerBoundedRep, Many, Natural, One, Positive, Zero};

fn integer(x: i64) -> Integer {
    Integer::new(x)
}

fn natural(x: i64) -> Natural {
    Natural::at_least(x)
}

fn pos(x: i64) -> Positive {
    Positive::at_least(x)
}

#[test]
fn embedding() {
    let m2 = pos(1).add(pos(1));
    assert_eq!(integer(2), natural(2).integer());
    assert_eq!(integer(2), pos(2).integer());
    assert_eq!(integer(2), m2.integer());
    assert_eq!(natural(2), pos(2).natural());
    assert_eq!(natural(2), m2.natural());
    assert_eq!(pos(2), m2.positive());
}

#[test]
fn embedding_constants() {
    assert_eq!(integer(0), Zero.integer());
    assert_eq!(natural(0), Zero.natural());
    assert_eq!(integer(1), One.integer());
    assert_eq!(natural(1), One.natural());
    assert_eq!(pos(1), One.positive());
}

#[test]
fn add_positives() {
    let sum: Many = pos(2).add(pos(3));
    assert_eq!(pos(5), sum.positive());
}

#[test]
fn mul_positives() {
    assert_eq!(pos(6), pos(2).mul(pos(3)));
}

#[test]
fn does_map() {
    let x: i64 = 5;
    let y: i64 = 5;
    assert_eq!(integer(y), integer(x).map(|v| v));
    assert_eq!(integer(x), integer(y).map(|v| v * 1));
    assert_eq!(integer(10), integer(x).map(|v| v * 2));
}

#[test]
fn test_positive_euclid() {
    for p in 1..10 {
        let positive = pos(p);
        let mut q = 0;
        let mut r = 0;
        for k in 0..20 {
            assert_eq!((integer(q), natural(r)), positive.euclid(integer(k)));
            r += 1;
            if r == p {
                q += 1;
                r = 0;
            }
        }
    }
}

#[test]
fn test_negative_euclid() {
    for p in 1..10 {
        let positive = pos(p);
        let mut q = 0;
        let mut r = 0;
        for k in 0..20 {
            assert_eq!((integer(q), natural(r)), positive.euclid(integer(-k)));
            if r == 0 {
                q -= 1;
                r = p;
            }
            r -= 1;
        }
    }
}

#[test]
fn euclid_sign_law_at_extremes() {
    let (q, r) = pos(7).euclid(integer(i64::MIN));
    assert_eq!(q, integer(i64::MIN.div_euclid(7)));
    assert_eq!(r, natural(i64::MIN.rem_euclid(7)));
    let (q, r) = pos(7).euclid(integer(i64::MAX));
    assert_eq!(q, integer(i64::MAX / 7));
    assert_eq!(r, natural(i64::MAX % 7));
    let (q, r) = pos(1).euclid(integer(i64::MIN));
    assert_eq!((q, r), (integer(i64::MIN), natural(0)));
    let (q, r) = pos(5).euclid(integer(-3));
    assert_eq!((q, r), (integer(-1), natural(2)));
}

#[test]
fn fallible_and_saturating_constructors() {
    assert_eq!(None, Natural::rep(-1));
    assert_eq!(Some(natural(0)), Natural::rep(0));
    assert_eq!(None, Positive::rep(0));
    assert_eq!(Some(pos(1)), Positive::rep(1));
    assert_eq!(None, Many::rep(1));
    assert_eq!(Some(pos(1).add(pos(1))), Many::rep(2));
    assert_eq!(Some(integer(-4)), Integer::rep(-4));
    assert_eq!(natural(0), Natural::at_least(-7));
    assert_eq!(pos(1), Positive::at_least(-7));
    assert_eq!(pos(9), Positive::at_least(9));
    assert_eq!(0, Natural::under_bottom());
    assert_eq!(pos(1), Positive::bottom());
    assert_eq!(9, pos(9).out());
}

#[test]
fn closure_table() {
    assert_eq!(pos(7).natural(), natural(3).add(natural(4)));
    assert_eq!(pos(7), natural(3).add_positive(pos(4)));
    assert_eq!(pos(7), pos(4).add_natural(natural(3)));
    assert_eq!(natural(12), natural(3).mul_positive(pos(4)));
    assert_eq!(natural(0), natural(0).mul_positive(pos(4)));
    assert_eq!(pos(5), natural(4).succ());
    assert_eq!(pos(5), pos(4).succ().positive());
    assert_eq!(natural(3), natural(17).div(pos(5)));
    assert_eq!(natural(2), natural(17).rem(pos(5)));
    assert_eq!(integer(-12), integer(3).mul(integer(-4)));
    assert_eq!(integer(-1), integer(3).add(integer(-4)));
    assert_eq!(integer(-3), integer(3).neg());
    assert_eq!(integer(1), Integer::one());
}
