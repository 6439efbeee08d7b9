use std::cmp::Ordering;

use vol_surface::quantity::lowest_and_highest;
use vol_surface::quantity::Quantity;

fn q(x: f64) -> Quantity {
    Quantity::from_bits(x.to_bits())
}

fn samples() -> Vec<f64> {
    vec![
        0.0,
        -0.0,
        1.0,
        -1.0,
        2.0,
        0.0001,
        -0.0001,
        6.9892,
        100.0,
        -100.0,
        5e-324,
        -5e-324,
        2.2250738585072014e-308,
        f64::MAX,
        f64::MIN,
        f64::INFINITY,
        f64::NEG_INFINITY,
        f64::NAN,
        -f64::NAN,
        f64::from_bits(0x7FF0_0000_0000_0001),
        f64::from_bits(0xFFFF_FFFF_FFFF_FFFF),
    ]
}

#[test]
fn classification_agrees_with_binary64() {
    for x in samples() {
        assert_eq!(q(x).is_nan(), x.is_nan(), "is_nan of {x:?}");
        assert_eq!(q(x).is_finite(), x.is_finite(), "is_finite of {x:?}");
        assert_eq!(q(x).is_positive(), x > 0.0, "is_positive of {x:?}");
    }
}

#[test]
fn comparisons_agree_with_binary64() {
    for x in samples() {
        for y in samples() {
            assert_eq!(q(x).lt(q(y)), x < y, "{x:?} < {y:?}");
            assert_eq!(q(x).le(q(y)), x <= y, "{x:?} <= {y:?}");
            assert_eq!(q(x).gt(q(y)), x > y, "{x:?} > {y:?}");
            assert_eq!(q(x).ge(q(y)), x >= y, "{x:?} >= {y:?}");
            assert_eq!(q(x).equals(q(y)), x == y, "{x:?} == {y:?}");
        }
    }
}

#[test]
fn total_order_agrees_with_binary64() {
    for x in samples() {
        for y in samples() {
            assert_eq!(
                q(x).total_le(q(y)),
                x.total_cmp(&y) != Ordering::Greater,
                "{x:?} before {y:?}"
            );
        }
    }
}

#[test]
fn named_quantities_have_the_encodings_of_their_values() {
    assert_eq!(Quantity::zero().to_bits(), 0.0f64.to_bits());
    assert_eq!(Quantity::one().to_bits(), 1.0f64.to_bits());
    assert_eq!(Quantity::two().to_bits(), 2.0f64.to_bits());
    assert_eq!(Quantity::largest_finite().to_bits(), f64::MAX.to_bits());
    assert_eq!(Quantity::smallest_finite().to_bits(), f64::MIN.to_bits());
}

#[test]
fn negation_flips_the_sign_only() {
    for x in samples() {
        assert_eq!(q(x).negated().to_bits(), (-x).to_bits(), "negation of {x:?}");
    }
}

#[test]
fn quantity_round_trips_through_its_bits() {
    for x in samples() {
        assert_eq!(q(x).to_bits(), x.to_bits());
        assert_eq!(q(x), Quantity { bits: x.to_bits() });
    }
}

#[test]
fn lowest_and_highest_of_nothing_is_none() {
    assert_eq!(lowest_and_highest(&Vec::new()), None);
}

#[test]
fn lowest_and_highest_of_one_value_is_that_value_twice() {
    assert_eq!(lowest_and_highest(&vec![q(0.04)]), Some((q(0.04), q(0.04))));
}

#[test]
fn lowest_and_highest_follow_the_total_order() {
    let values = vec![q(0.04), q(-0.3), q(0.09), q(0.0), q(-0.0), q(0.0225)];
    assert_eq!(lowest_and_highest(&values), Some((q(-0.3), q(0.09))));
    let zeros = vec![q(0.0), q(-0.0)];
    assert_eq!(lowest_and_highest(&zeros), Some((q(-0.0), q(0.0))));
    let with_nan = vec![q(1.0), q(f64::NAN), q(f64::INFINITY)];
    assert_eq!(lowest_and_highest(&with_nan), Some((q(1.0), q(f64::NAN))));
}

#[test]
fn lowest_and_highest_agree_with_min_and_max_by_total_order() {
    let floats = samples();
    let values: Vec<Quantity> = floats.iter().map(|x| q(*x)).collect();
    let max = floats.iter().max_by(|a, b| a.total_cmp(b)).unwrap();
    let min = floats.iter().min_by(|a, b| a.total_cmp(b)).unwrap();
    let (lowest, highest) = lowest_and_highest(&values).unwrap();
    assert_eq!(lowest.to_bits(), min.to_bits());
    assert_eq!(highest.to_bits(), max.to_bits());
}
