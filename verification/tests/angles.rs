use unit_algebra::{Angle, Rat, Scalar, Temperature};
use unit_algebra::units::{ArcMinutes, ArcSeconds, Celsius, Degrees, Fahrenheit, Kelvin, Rankine};

fn rat(num: i64, den: i64) -> Rat {
    Rat::new(num, den).unwrap()
}

fn deg(v: i64) -> Angle<Degrees> {
    Angle::<Degrees>::from_int(v)
}

#[test]
fn test_basic_angle_math() {
    assert!(deg(2).add(&deg(2)).eq_val(&deg(4)));
}

#[test]
fn test_arcminute_arcsecond() {
    let a = deg(1);
    assert!(a.to::<ArcMinutes>().eq_val(&Angle::<ArcMinutes>::from_int(60)));
    assert!(a.to::<ArcSeconds>().eq_val(&Angle::<ArcSeconds>::from_int(3_600)));
}

#[test]
fn test_wrapping() {
    assert!(deg(-181).wrap(&deg(-180), &deg(180)).eq_val(&deg(179)));
    assert!(deg(181).wrap(&deg(-180), &deg(180)).eq_val(&deg(-179)));
    assert!(deg(180 + 3_600 + 1).wrap(&deg(-180), &deg(180)).eq_val(&deg(-179)));
    assert!(deg(-180 - 3_600 - 1).wrap(&deg(-180), &deg(180)).eq_val(&deg(179)));
}

#[test]
fn test_wrap_is_identity_inside_range() {
    let x = deg(30);
    let wrapped = x.wrap(&deg(-180), &deg(180));
    assert!(wrapped.eq_val(&x));
    // The boundary cases: max stays, min wraps up to max.
    assert!(deg(180).wrap(&deg(-180), &deg(180)).eq_val(&deg(180)));
    assert!(deg(-180).wrap(&deg(-180), &deg(180)).eq_val(&deg(180)));
}

#[test]
fn test_clamp() {
    assert!(deg(200).clamp(&deg(-90), &deg(90)).eq_val(&deg(90)));
    assert!(deg(-200).clamp(&deg(-90), &deg(90)).eq_val(&deg(-90)));
    assert!(deg(45).clamp(&deg(-90), &deg(90)).eq_val(&deg(45)));
}

#[test]
fn test_split_degrees_minutes_seconds() {
    let a = Angle::<Degrees>::new(rat(455, 10));
    assert_eq!(a.split_degrees_minutes_seconds(), (45, 30, 0));
    let b = Angle::<Degrees>::new(rat(-122575, 10_000));
    assert_eq!(b.split_degrees_minutes_seconds(), (-12, -15, -27));
}

#[test]
fn test_format_latitude() {
    let a = Angle::<Degrees>::new(rat(455, 10));
    assert_eq!(a.format_latitude(), "N045d30m00s");
    let b = Angle::<Degrees>::new(rat(-122575, 10_000));
    assert_eq!(b.format_latitude(), "S012d15m27s");
}

#[test]
fn test_format_longitude() {
    let a = Angle::<Degrees>::new(rat(455, 10));
    assert_eq!(a.format_longitude(), "E045d30m00s");
    let b = Angle::<Degrees>::new(rat(-122575, 10_000));
    assert_eq!(b.format_longitude(), "W012d15m27s");
}

#[test]
fn test_angle_sign_and_abs() {
    assert_eq!(deg(-45).sign(), -1);
    assert_eq!(deg(45).sign(), 1);
    assert_eq!(deg(0).sign(), 0);
    assert!(deg(-45).abs().eq_val(&deg(45)));
}

#[test]
fn test_celsius_to_fahrenheit() {
    let boiling = Temperature::<Celsius>::from_int(100);
    assert!(boiling.to::<Fahrenheit>().eq_val(&Temperature::<Fahrenheit>::from_int(212)));
    let freezing = Temperature::<Fahrenheit>::from_int(32);
    assert!(freezing.to::<Celsius>().eq_val(&Temperature::<Celsius>::from_int(0)));
}

#[test]
fn test_kelvin_rankine() {
    let k = Temperature::<Kelvin>::from_int(300);
    assert!(k.to::<Rankine>().eq_val(&Temperature::<Rankine>::from_int(540)));
    assert!(k.to::<Celsius>().eq_val(&Temperature::<Celsius>::new(rat(2685, 100))));
}

#[test]
fn test_temperature_round_trip() {
    let t = Temperature::<Fahrenheit>::new(rat(987, 10));
    assert!(t.to::<Kelvin>().to::<Fahrenheit>().eq_val(&t));
}

#[test]
fn test_angular_velocity_times_time() {
    let w = unit_algebra::AngularVelocity::<Degrees, unit_algebra::units::Seconds>::from_int(10);
    let a = w.times_time(&unit_algebra::Time::<unit_algebra::units::Seconds>::from_int(3));
    assert!(a.eq_val(&deg(30)));
}

#[test]
fn test_scalar_arithmetic() {
    let half = Scalar::new(rat(1, 2));
    let third = Scalar::new(rat(1, 3));
    assert!(half.add(&third).eq_val(&Scalar::new(rat(5, 6))));
    assert!(half.mul(&third).eq_val(&Scalar::new(rat(1, 6))));
    assert!(half.sub(&third).eq_val(&Scalar::new(rat(1, 6))));
    assert!(half.div(&third).eq_val(&Scalar::new(rat(3, 2))));
}
