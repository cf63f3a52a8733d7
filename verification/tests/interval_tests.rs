use raytracer::interval::Interval;
use raytracer::scalar::Scalar;

fn s(x: f64) -> Scalar {
    Scalar::from_bits(x.to_bits())
}

fn f(x: Scalar) -> f64 {
    f64::from_bits(x.to_bits())
}

fn range(lo: f64, hi: f64) -> Interval {
    Interval::interval(s(lo), s(hi))
}

fn samples() -> Vec<f64> {
    vec![
        f64::NEG_INFINITY,
        -1e300,
        -2.0,
        -1.0,
        -0.5,
        -0.0,
        0.0,
        5e-324,
        0.001,
        0.5,
        0.999,
        1.0,
        2.0,
        1e300,
        f64::INFINITY,
        f64::NAN,
    ]
}

#[test]
fn constructor_keeps_the_bounds() {
    let i = range(-1.5, 2.5);
    assert_eq!(f(i.min()), -1.5);
    assert_eq!(f(i.max()), 2.5);
}

#[test]
fn contains_includes_the_bounds() {
    let i = range(1.0, 2.0);
    assert!(i.contains(s(1.0)));
    assert!(i.contains(s(2.0)));
    assert!(i.contains(s(1.5)));
    assert!(!i.contains(s(0.999)));
    assert!(!i.contains(s(2.001)));
    assert!(!i.contains(s(f64::NAN)));
}

#[test]
fn surrounds_excludes_the_bounds() {
    let i = range(1.0, 2.0);
    assert!(!i.surrounds(s(1.0)));
    assert!(!i.surrounds(s(2.0)));
    assert!(i.surrounds(s(1.5)));
    assert!(!i.surrounds(s(f64::NAN)));
}

#[test]
fn clamp_saturates() {
    let i = range(1.0, 2.0);
    assert_eq!(f(i.clamp(s(0.0))), 1.0);
    assert_eq!(f(i.clamp(s(3.0))), 2.0);
    assert_eq!(f(i.clamp(s(1.25))), 1.25);
    assert_eq!(f(i.clamp(s(1.0))), 1.0);
    assert_eq!(f(i.clamp(s(2.0))), 2.0);
    assert_eq!(f(i.clamp(s(f64::NEG_INFINITY))), 1.0);
    assert_eq!(f(i.clamp(s(f64::INFINITY))), 2.0);
    assert!(f(i.clamp(s(f64::NAN))).is_nan());
}

#[test]
fn clamp_lands_in_the_range_and_leaves_members_alone() {
    for &lo in samples().iter() {
        for &hi in samples().iter() {
            if !(lo <= hi) {
                continue;
            }
            let i = range(lo, hi);
            for &x in samples().iter() {
                if x.is_nan() {
                    continue;
                }
                let c = i.clamp(s(x));
                assert!(i.contains(c), "clamp of {} to [{}, {}]", x, lo, hi);
                assert!(lo <= f(c) && f(c) <= hi);
                if i.contains(s(x)) {
                    assert_eq!(c.to_bits(), x.to_bits());
                }
            }
        }
    }
}

#[test]
fn the_three_tests_agree_with_the_hardware() {
    for &lo in samples().iter() {
        for &hi in samples().iter() {
            let i = range(lo, hi);
            for &x in samples().iter() {
                assert_eq!(i.contains(s(x)), lo <= x && x <= hi);
                assert_eq!(i.surrounds(s(x)), lo < x && x < hi);
                let want = if x < lo {
                    lo
                } else if x > hi {
                    hi
                } else {
                    x
                };
                assert_eq!(i.clamp(s(x)).to_bits(), want.to_bits());
            }
        }
    }
}

#[test]
fn clamp_of_the_empty_range_leaves_the_range() {
    let e = Interval::empty();
    let c = e.clamp(s(0.0));
    assert_eq!(f(c), f64::INFINITY);
    assert!(!e.contains(c));
}

#[test]
fn empty_holds_nothing() {
    let e = Interval::empty();
    assert_eq!(f(e.min()), f64::INFINITY);
    assert_eq!(f(e.max()), f64::NEG_INFINITY);
    for &x in samples().iter() {
        assert!(!e.contains(s(x)));
        assert!(!e.surrounds(s(x)));
    }
}

#[test]
fn identity_is_the_empty_range() {
    let i = Interval::identity();
    assert_eq!(f(i.min()), f64::INFINITY);
    assert_eq!(f(i.max()), f64::NEG_INFINITY);
}

#[test]
fn universe_holds_every_number() {
    let u = Interval::universe();
    assert_eq!(f(u.min()), f64::NEG_INFINITY);
    assert_eq!(f(u.max()), f64::INFINITY);
    for &x in samples().iter() {
        assert_eq!(u.contains(s(x)), !x.is_nan());
    }
    assert!(!u.surrounds(s(f64::INFINITY)));
    assert!(u.surrounds(s(1e300)));
}
