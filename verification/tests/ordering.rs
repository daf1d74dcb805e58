use unit_algebra::{Length, Rat, Scalar};
use unit_algebra::units::Meters;

fn rat(num: i64, den: i64) -> Rat {
    Rat::new(num, den).unwrap()
}

fn sort_scalars(values: &mut Vec<Scalar>) {
    values.sort_by(|a, b| {
        if a.lt(b) {
            std::cmp::Ordering::Less
        } else if b.lt(a) {
            std::cmp::Ordering::Greater
        } else {
            std::cmp::Ordering::Equal
        }
    });
}

#[test]
fn test_non_finite_sorts_last() {
    let mut values = vec![
        Scalar::from_int(3),
        Scalar::non_finite(),
        Scalar::from_int(-7),
        Scalar::new(rat(1, 2)),
        Scalar::from_int(100),
    ];
    sort_scalars(&mut values);
    assert!(values[0].eq_val(&Scalar::from_int(-7)));
    assert!(values[1].eq_val(&Scalar::new(rat(1, 2))));
    assert!(values[2].eq_val(&Scalar::from_int(3)));
    assert!(values[3].eq_val(&Scalar::from_int(100)));
    assert!(!values[4].is_finite());
}

#[test]
fn test_sorting_twice_is_idempotent() {
    let mut values = vec![
        Scalar::non_finite(),
        Scalar::from_int(2),
        Scalar::from_int(1),
    ];
    sort_scalars(&mut values);
    let first: Vec<Option<Rat>> = values.iter().map(|v| v.magnitude()).collect();
    sort_scalars(&mut values);
    let second: Vec<Option<Rat>> = values.iter().map(|v| v.magnitude()).collect();
    for (a, b) in first.iter().zip(second.iter()) {
        match (a, b) {
            (Some(x), Some(y)) => assert!(x.eqv(y)),
            (None, None) => {},
            _ => panic!("sorting moved the non-finite value"),
        }
    }
}

#[test]
fn test_rat_rejects_zero_denominator() {
    assert!(Rat::new(1, 0).is_none());
}

#[test]
fn test_rat_value_equality_ignores_representation() {
    assert!(rat(1, 2).eqv(&rat(2, 4)));
    assert!(!rat(1, 2).eqv(&rat(2, 3)));
}

#[test]
fn test_rat_normalizes() {
    let r = rat(50, 100);
    assert_eq!(r.num, 1);
    assert_eq!(r.den, 2);
    let n = rat(3, -6);
    assert_eq!(n.num, -1);
    assert_eq!(n.den, 2);
}

#[test]
fn test_length_ordering_same_unit() {
    let a = Length::<Meters>::from_int(1);
    let b = Length::<Meters>::from_int(2);
    assert!(a.lt(&b));
    assert!(a.le(&b));
    assert!(!b.le(&a));
    assert!(Length::<Meters>::non_finite().le(&Length::<Meters>::non_finite()));
    assert!(b.lt(&Length::<Meters>::non_finite()));
}

#[test]
fn test_addition_commutes() {
    let a = Length::<Meters>::new(rat(7, 3));
    let b = Length::<Meters>::new(rat(-2, 5));
    let ab = a.add(&b);
    let ba = b.add(&a);
    assert!(ab.eq_val(&ba));
}

#[test]
fn test_addition_associates() {
    let a = Length::<Meters>::new(rat(1, 3));
    let b = Length::<Meters>::new(rat(1, 5));
    let c = Length::<Meters>::new(rat(1, 7));
    let left = a.add(&b).add(&c);
    let right = a.add(&b.add(&c));
    assert!(left.eq_val(&right));
}

#[test]
fn test_conversion_composition() {
    // Meters to feet directly, and by way of kilometers, agree exactly.
    let x = Length::<Meters>::new(rat(12345, 67));
    let direct = x.to::<unit_algebra::units::Feet>();
    let via = x.to::<unit_algebra::units::Kilometers>().to::<unit_algebra::units::Feet>();
    assert!(direct.eq_val(&via));
}
