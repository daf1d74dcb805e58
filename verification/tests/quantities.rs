use unit_algebra::{
    Acceleration, Density, Length, Mass, MassRate, Pressure, Rat, Scalar, Time, Torque, Velocity,
};
use unit_algebra::units::{
    Feet, Hours, Kilograms, Kilometers, Meters, Miles, Newtons, Pascals, PoundsForce, PoundsMass,
    PoundsSquareFoot, Seconds, Slugs,
};

fn rat(num: i64, den: i64) -> Rat {
    Rat::new(num, den).unwrap()
}

fn mag_f64(m: Option<Rat>) -> f64 {
    let r = m.unwrap();
    (r.num as f64) / (r.den as f64)
}

fn assert_close(m: Option<Rat>, expected: f64, eps: f64) {
    let got = mag_f64(m);
    assert!((got - expected).abs() < eps, "got {got}, expected {expected}");
}

#[test]
fn test_meters_to_feet() {
    let m = Length::<Meters>::from_int(1);
    let ft = m.to::<Feet>();
    assert_close(ft.magnitude(), 3.28084, 0.0001);
    let km = m.to::<Kilometers>();
    assert!(km.eq_val(&Length::<Kilometers>::new(rat(1, 1000))));
}

#[test]
fn test_scalar_length() {
    let doubled = Length::<Meters>::from_int(2).scale(&Scalar::from_int(2));
    assert!(doubled.eq_val(&Length::<Meters>::from_int(4)));
}

#[test]
fn test_mass() {
    let lb = Mass::<PoundsMass>::from_int(60_000);
    let kg = Mass::<Kilograms>::new(rat(272_155, 10));
    assert_close(lb.to::<Kilograms>().sub(&kg).magnitude(), 0.0, 0.1);
    assert_close(kg.to::<PoundsMass>().sub(&lb).magnitude(), 0.0, 0.1);
}

#[test]
fn test_mass_scalar() {
    let doubled = Mass::<PoundsMass>::from_int(2).scale(&Scalar::from_int(2));
    assert!(doubled.eq_val(&Mass::<PoundsMass>::from_int(4)));
}

#[test]
fn test_mass_rate() {
    let lbps = MassRate::<PoundsMass, Seconds>::from_int(100);
    let kgps = MassRate::<Kilograms, Seconds>::new(rat(45_359_237, 1_000_000));
    assert!(lbps.to::<Kilograms, Seconds>().eq_val(&kgps));
    assert!(kgps.to::<PoundsMass, Seconds>().eq_val(&lbps));
}

#[test]
fn test_pressure() {
    let psf = Pressure::<PoundsSquareFoot>::new(rat(211_622, 100));
    let pas = Pressure::<Pascals>::from_int(101_325);
    assert_close(pas.to::<PoundsSquareFoot>().sub(&psf).magnitude(), 0.0, 0.01);
}

#[test]
fn test_time() {
    let h = Time::<Hours>::from_int(1);
    assert!(h.to::<Seconds>().eq_val(&Time::<Seconds>::from_int(3_600)));
}

#[test]
fn test_time_scalar() {
    let doubled = Time::<Seconds>::from_int(2).scale(&Scalar::from_int(2));
    assert!(doubled.eq_val(&Time::<Seconds>::from_int(4)));
}

#[test]
fn test_torque() {
    let nm = Torque::<Newtons, Meters>::from_int(100);
    assert!(nm.eq_val(&Torque::<Newtons, Meters>::from_int(100)));
}

#[test]
fn test_velocity() {
    let m_p_s = Velocity::<Meters, Seconds>::from_int(100);
    let mph = m_p_s.to::<Miles, Hours>();
    assert!(mph.to::<Meters, Seconds>().eq_val(&m_p_s));
}

#[test]
fn test_velocity_shift() {
    let m_p_s = Velocity::<Meters, Seconds>::from_int(100).add(&Velocity::<Miles, Hours>::from_int(
        100,
    ));
    assert_close(m_p_s.magnitude(), 144.704, 0.001);
}

#[test]
fn test_velocity_cancel() {
    let six = Velocity::<Meters, Seconds>::from_int(6);
    let three = Velocity::<Meters, Seconds>::from_int(3);
    assert!(six.div_same(&three).eq_val(&Scalar::from_int(2)));
}

#[test]
fn test_acceleration() {
    let m_p_s2 = Acceleration::<Meters, Seconds>::from_int(100);
    let ft_p_s2 = m_p_s2.to::<Feet, Seconds>();
    assert!(ft_p_s2.to::<Meters, Seconds>().eq_val(&m_p_s2));
}

#[test]
fn test_accel_shift() {
    let m_p_s2 = Acceleration::<Meters, Seconds>::from_int(100).add(
        &Acceleration::<Feet, Seconds>::from_int(100),
    );
    assert_close(m_p_s2.magnitude(), 130.48, 0.001);
}

#[test]
fn test_accel_convert_time() {
    let mph2 = Velocity::<Miles, Hours>::from_int(100).per_time(&Time::<Hours>::from_int(1));
    assert_close(mph2.to::<Meters, Seconds>().magnitude(), 0.0124177, 0.000_001);
}

#[test]
fn test_accel_convert_velocity() {
    let mps2 = Acceleration::<Meters, Seconds>::from_int(100);
    let v = mps2.times_time(&Time::<Seconds>::from_int(10));
    assert!(v.eq_val(&Velocity::<Meters, Seconds>::from_int(1000)));
}

#[test]
fn test_density() {
    let s_p_f3 = Density::<Slugs, Feet>::from_int(100);
    let kg_p_m3 = s_p_f3.to::<Kilograms, Meters>();
    assert!(kg_p_m3.to::<Slugs, Feet>().eq_val(&s_p_f3));
}

#[test]
fn test_velocity_to_mph_value() {
    let m_p_s = Velocity::<Meters, Seconds>::from_int(100);
    assert_close(m_p_s.to::<Miles, Hours>().magnitude(), 223.694, 0.001);
}

#[test]
fn test_feet_per_second2_value() {
    let ft = Acceleration::<Feet, Seconds>::from_int(100);
    let si = ft.to::<Meters, Seconds>();
    assert!(si.eq_val(&Acceleration::<Meters, Seconds>::new(rat(3048, 100))));
}

#[test]
fn test_g_number() {
    let one_g = Acceleration::<Meters, Seconds>::new(rat(980_665, 100_000));
    assert!(one_g.g_number().eq_val(&Scalar::from_int(1)));
}

#[test]
fn test_mass_times_acceleration() {
    let kg = Mass::<Kilograms>::from_int(10);
    let acc = Acceleration::<Meters, Seconds>::from_int(2);
    let f = kg.times_acceleration(&acc);
    assert!(f.eq_val(&unit_algebra::Force::<Newtons>::from_int(20)));
}

#[test]
fn test_torque_conversion() {
    let lbf_ft = Torque::<PoundsForce, Feet>::from_int(1);
    let nm = lbf_ft.to::<Newtons, Meters>();
    assert_close(nm.magnitude(), 1.35582, 0.0001);
}

#[test]
fn test_non_finite_propagates() {
    let v = Velocity::<Meters, Seconds>::non_finite();
    assert!(!v.is_finite());
    let sum = Velocity::<Meters, Seconds>::from_int(1).add(&v);
    assert!(!sum.is_finite());
}

#[test]
fn test_division_by_zero_is_non_finite() {
    let len = Length::<Meters>::from_int(5);
    let ratio = len.div_same(&Length::<Meters>::from_int(0));
    assert!(!ratio.is_finite());
}
