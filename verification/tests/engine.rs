use unit_algebra::{
    Area, Density, DynamicUnits, Force, Length, Mass, Rat, Scalar, Velocity,
};
use unit_algebra::units::{Kilograms, Meters, Newtons, Radians, Seconds};

fn rat(num: i64, den: i64) -> Rat {
    Rat::new(num, den).unwrap()
}

#[test]
fn test_dyn_mul() {
    let v = Velocity::<Meters, Seconds>::from_int(3);
    let v2 = v.as_dyn().mul(v.as_dyn());
    assert!(v2.magnitude().unwrap().eqv(&rat(9, 1)));
    let target = DynamicUnits::new2o2::<Meters, Meters, Seconds, Seconds>(Some(Rat::from_int(0)));
    assert!(v2.units_equal(&target));
    v2.assert_units_equal(target);
}

#[test]
fn test_dyn_cancellation() {
    let coef = Scalar::new(rat(5, 10)).as_dyn();
    let coef_d = Scalar::new(rat(1, 100)).as_dyn();
    let p = Density::<Kilograms, Meters>::new(rat(1, 10)).as_dyn();
    let v = Velocity::<Meters, Seconds>::from_int(3).as_dyn();
    let v2 = Velocity::<Meters, Seconds>::from_int(3).as_dyn();
    let a = Area::<Meters>::from_int(1).as_dyn();
    let chain = coef.mul(coef_d).mul(p).mul(v).mul(v2).mul(a);
    let drag = Force::<Newtons>::try_from_dyn(&chain).unwrap();
    assert!(drag.eq_val(&Force::<Newtons>::new(rat(45, 10_000))));
}

#[test]
fn test_dyn_mismatch_fails() {
    let len = Length::<Meters>::from_int(2);
    let len_sq = len.as_dyn().mul(len.as_dyn());
    let mass_target = Mass::<Kilograms>::from_int(0).as_dyn();
    assert!(!len_sq.units_equal(&mass_target));
}

#[test]
fn test_dyn_div_swaps_sides() {
    let len = Length::<Meters>::from_int(6).as_dyn();
    let t = unit_algebra::Time::<Seconds>::from_int(2).as_dyn();
    let v = len.div(t);
    assert!(v.magnitude().unwrap().eqv(&rat(3, 1)));
    let target = Velocity::<Meters, Seconds>::from_int(0).as_dyn();
    assert!(v.units_equal(&target));
}

#[test]
fn test_dyn_add_same_signature() {
    let a = Length::<Meters>::from_int(2).as_dyn();
    let b = Length::<Meters>::from_int(3).as_dyn();
    let sum = a.add(b);
    assert!(sum.magnitude().unwrap().eqv(&rat(5, 1)));
}

#[test]
fn test_radians_cancel_as_unitless() {
    let r = DynamicUnits::new1o0::<Radians>(Some(Rat::from_int(2)));
    assert!(r.units_are_empty());
    let s = Scalar::try_from_dyn(&r).unwrap();
    assert!(s.eq_val(&Scalar::from_int(2)));
}

#[test]
fn test_scalar_round_trip_through_dyn() {
    let s = Scalar::new(rat(7, 2));
    let d = s.as_dyn();
    assert!(d.units_are_empty());
    let back = Scalar::try_from_dyn(&d).unwrap();
    assert!(back.eq_val(&s));
}

#[test]
fn test_try_from_dyn_wrong_shape_is_none() {
    let len = Length::<Meters>::from_int(2).as_dyn();
    assert!(Force::<Newtons>::try_from_dyn(&len).is_none());
}

#[test]
fn test_cancel_units_leaves_residue() {
    // meters^2 / meters leaves one meter in the numerator: the residue
    // matches a plain length signature.
    let len = Length::<Meters>::from_int(4);
    let sq = len.as_dyn().mul(len.as_dyn());
    let per_len = sq.div(Length::<Meters>::from_int(2).as_dyn());
    let target = Length::<Meters>::from_int(0).as_dyn();
    assert!(per_len.units_equal(&target));
    assert!(per_len.magnitude().unwrap().eqv(&rat(8, 1)));
}

#[test]
fn test_permissive_leftover_rule() {
    // meters * seconds / (meters * seconds) cancels internally, so it
    // verifies against the empty, dimensionless target.
    let num = Length::<Meters>::from_int(3).as_dyn().mul(
        unit_algebra::Time::<Seconds>::from_int(2).as_dyn(),
    );
    let den = Length::<Meters>::from_int(1).as_dyn().mul(
        unit_algebra::Time::<Seconds>::from_int(1).as_dyn(),
    );
    let chain = num.div(den);
    let target = DynamicUnits::new0o0(Some(Rat::from_int(0)));
    assert!(chain.units_equal(&target));
}
