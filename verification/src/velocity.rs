use vstd::prelude::*;
use vstd::multiset::Multiset;
use core::marker::PhantomData;
use crate::dynamic::DynamicUnits;
use crate::rational::{
    eqv_mag, le_mag, lt_mag, mag_add, mag_div, mag_eq, mag_le, mag_mul, mag_neg, mag_scale,
    mag_sub, mag_wf, spec_add, spec_div, spec_mul, spec_neg, spec_scale, spec_sub, Rat, MAG_LIMIT,
};
use crate::scalar::Scalar;
use crate::length::Length;
use crate::time::Time;
use crate::units::{LengthUnit, TimeUnit, Unit, UnitId};

verus! {
/// A speed: length per time, expressed in the length unit `L` over the
/// time unit `T`.
pub struct Velocity<L: LengthUnit, T: TimeUnit> {
    v: Option<Rat>,
    unit: PhantomData<(L, T)>,
}

impl<L: LengthUnit, T: TimeUnit> Velocity<L, T> {
    /// The magnitude, expressed in this type's own units.
    pub closed spec fn mag(self) -> Option<Rat> {
        self.v
    }

    pub open spec fn wf(self) -> bool {
        mag_wf(self.mag())
    }

    pub open spec fn finite(self) -> bool {
        self.mag() is Some
    }

    pub fn new(v: Rat) -> (r: Self)
        requires
            v.wf(),
        ensures
            r.mag() == Some(v),
            r.wf(),
    {
        Velocity { v: Some(v), unit: PhantomData }
    }

    pub fn from_int(v: i64) -> (r: Self)
        requires
            -MAG_LIMIT <= v as int,
        ensures
            r.wf(),
            r.mag() matches Some(q) && q.num == v as int && q.den == 1,
    {
        Velocity { v: Some(Rat::from_int(v)), unit: PhantomData }
    }

    /// The value no finite representation exists for; it propagates
    /// through arithmetic and sorts after every finite value.
    pub fn non_finite() -> (r: Self)
        ensures
            r.mag() is None,
            r.wf(),
    {
        Velocity { v: None, unit: PhantomData }
    }

    pub fn magnitude(&self) -> (r: Option<Rat>)
        ensures
            r == self.mag(),
    {
        self.v
    }

    pub fn is_finite(&self) -> (r: bool)
        ensures
            r == self.finite(),
    {
        self.v.is_some()
    }

    /// Exact conversion: the length slot scales forward, the time slot,
    /// being a divisor, scales inverted.
    pub fn to<LB: LengthUnit, TB: TimeUnit>(&self) -> (r: Velocity<LB, TB>)
        requires
            self.wf(),
        ensures
            r.wf(),
            r.mag() == spec_scale(spec_scale(self.mag(), L::spec_ratio(), LB::spec_ratio()), TB::spec_ratio(), T::spec_ratio()),
    {
        proof {
            L::ratio_props();
            LB::ratio_props();
            T::ratio_props();
            TB::ratio_props();
        }
        let m = mag_scale(&self.v, &L::ratio(), &LB::ratio());
        let m = mag_scale(&m, &TB::ratio(), &T::ratio());
        Velocity { v: m, unit: PhantomData }
    }

    /// Sum: the right operand is converted into this value's units first,
    /// and the result is expressed in this value's units.
    pub fn add<LB: LengthUnit, TB: TimeUnit>(&self, other: &Velocity<LB, TB>) -> (r: Self)
        requires
            self.wf(),
            other.wf(),
        ensures
            r.wf(),
            r.mag() == spec_add(self.mag(), spec_scale(spec_scale(other.mag(), LB::spec_ratio(), L::spec_ratio()), T::spec_ratio(), TB::spec_ratio())),
    {
        let o = other.to::<L, T>();
        Velocity { v: mag_add(&self.v, &o.v), unit: PhantomData }
    }

    /// Difference, with the same conversion rule as `add`.
    pub fn sub<LB: LengthUnit, TB: TimeUnit>(&self, other: &Velocity<LB, TB>) -> (r: Self)
        requires
            self.wf(),
            other.wf(),
        ensures
            r.wf(),
            r.mag() == spec_sub(self.mag(), spec_scale(spec_scale(other.mag(), LB::spec_ratio(), L::spec_ratio()), T::spec_ratio(), TB::spec_ratio())),
    {
        let o = other.to::<L, T>();
        Velocity { v: mag_sub(&self.v, &o.v), unit: PhantomData }
    }

    pub fn neg(&self) -> (r: Self)
        requires
            self.wf(),
        ensures
            r.wf(),
            r.mag() == spec_neg(self.mag()),
    {
        Velocity { v: mag_neg(&self.v), unit: PhantomData }
    }

    /// Scaling by a dimensionless factor keeps the units unchanged.
    pub fn scale(&self, s: &Scalar) -> (r: Self)
        requires
            self.wf(),
            s.wf(),
        ensures
            r.wf(),
            r.mag() == spec_mul(self.mag(), s.mag()),
    {
        Velocity { v: mag_mul(&self.v, &s.magnitude()), unit: PhantomData }
    }

    pub fn div_scalar(&self, s: &Scalar) -> (r: Self)
        requires
            self.wf(),
            s.wf(),
        ensures
            r.wf(),
            r.mag() == spec_div(self.mag(), s.mag()),
    {
        Velocity { v: mag_div(&self.v, &s.magnitude()), unit: PhantomData }
    }

    /// Ratio of two same-family values: the divisor is converted into this
    /// value's units first, so the result is a pure number.
    pub fn div_same<LB: LengthUnit, TB: TimeUnit>(&self, other: &Velocity<LB, TB>) -> (r: Scalar)
        requires
            self.wf(),
            other.wf(),
        ensures
            r.wf(),
            r.mag() == spec_div(self.mag(), spec_scale(spec_scale(other.mag(), LB::spec_ratio(), L::spec_ratio()), T::spec_ratio(), TB::spec_ratio())),
    {
        let o = other.to::<L, T>();
        Scalar::from_mag(mag_div(&self.v, &o.v))
    }

    /// Total order on same-unit values, the non-finite value greatest.
    pub fn le(&self, other: &Self) -> (r: bool)
        requires
            self.wf(),
            other.wf(),
        ensures
            r == le_mag(self.mag(), other.mag()),
    {
        mag_le(&self.v, &other.v)
    }

    pub fn lt(&self, other: &Self) -> (r: bool)
        requires
            self.wf(),
            other.wf(),
        ensures
            r == lt_mag(self.mag(), other.mag()),
    {
        !mag_le(&other.v, &self.v)
    }

    /// Exact value equality on same-unit values.
    pub fn eq_val(&self, other: &Self) -> (r: bool)
        requires
            self.wf(),
            other.wf(),
        ensures
            r == eqv_mag(self.mag(), other.mag()),
    {
        mag_eq(&self.v, &other.v)
    }

    pub(crate) fn from_mag(m: Option<Rat>) -> (r: Self)
        requires
            mag_wf(m),
        ensures
            r.mag() == m,
            r.wf(),
    {
        Velocity { v: m, unit: PhantomData }
    }

    /// Velocity over time is an acceleration; the divisor is converted
    /// into this value's time unit first.
    pub fn per_time<TB: TimeUnit>(&self, t: &Time<TB>) -> (r: Acceleration<L, T>)
        requires
            self.wf(),
            t.wf(),
        ensures
            r.wf(),
            r.mag() == spec_div(
                self.mag(),
                spec_scale(t.mag(), TB::spec_ratio(), T::spec_ratio()),
            ),
    {
        let o = t.to::<T>();
        Acceleration { v: mag_div(&self.v, &o.magnitude()), unit: PhantomData }
    }

    /// Velocity times time is a length; the time operand is converted
    /// into this value's time unit first.
    pub fn times_time<TB: TimeUnit>(&self, t: &Time<TB>) -> (r: Length<L>)
        requires
            self.wf(),
            t.wf(),
        ensures
            r.wf(),
            r.mag() == spec_mul(
                self.mag(),
                spec_scale(t.mag(), TB::spec_ratio(), T::spec_ratio()),
            ),
    {
        let o = t.to::<T>();
        Length::from_mag(mag_mul(&self.v, &o.magnitude()))
    }

    /// Velocity times velocity is a squared velocity, in this value's
    /// units; the right operand is converted first.
    pub fn times_velocity<LB: LengthUnit, TB: TimeUnit>(&self, other: &Velocity<LB, TB>) -> (r:
        VelocitySquared<L, T>)
        requires
            self.wf(),
            other.wf(),
        ensures
            r.wf(),
            r.mag() == spec_mul(
                self.mag(),
                spec_scale(
                    spec_scale(other.mag(), LB::spec_ratio(), L::spec_ratio()),
                    T::spec_ratio(),
                    TB::spec_ratio(),
                ),
            ),
    {
        let o = other.to::<L, T>();
        VelocitySquared { v: mag_mul(&self.v, &o.magnitude()), unit: PhantomData }
    }

    /// Lower into the dynamic engine: length over time.
    pub fn as_dyn(&self) -> (r: DynamicUnits)
        requires
            self.wf(),
        ensures
            r.wf(),
            r.mag() == self.mag(),
            r.nums() == Multiset::<UnitId>::empty().insert(L::spec_id()),
            r.dens() == Multiset::<UnitId>::empty().insert(T::spec_id()),
    {
        DynamicUnits::new1o1::<L, T>(self.v)
    }
}
/// An acceleration: length per time squared.
pub struct Acceleration<L: LengthUnit, T: TimeUnit> {
    v: Option<Rat>,
    unit: PhantomData<(L, T)>,
}

impl<L: LengthUnit, T: TimeUnit> Acceleration<L, T> {
    /// The magnitude, expressed in this type's own units.
    pub closed spec fn mag(self) -> Option<Rat> {
        self.v
    }

    pub open spec fn wf(self) -> bool {
        mag_wf(self.mag())
    }

    pub open spec fn finite(self) -> bool {
        self.mag() is Some
    }

    pub fn new(v: Rat) -> (r: Self)
        requires
            v.wf(),
        ensures
            r.mag() == Some(v),
            r.wf(),
    {
        Acceleration { v: Some(v), unit: PhantomData }
    }

    pub fn from_int(v: i64) -> (r: Self)
        requires
            -MAG_LIMIT <= v as int,
        ensures
            r.wf(),
            r.mag() matches Some(q) && q.num == v as int && q.den == 1,
    {
        Acceleration { v: Some(Rat::from_int(v)), unit: PhantomData }
    }

    /// The value no finite representation exists for; it propagates
    /// through arithmetic and sorts after every finite value.
    pub fn non_finite() -> (r: Self)
        ensures
            r.mag() is None,
            r.wf(),
    {
        Acceleration { v: None, unit: PhantomData }
    }

    pub fn magnitude(&self) -> (r: Option<Rat>)
        ensures
            r == self.mag(),
    {
        self.v
    }

    pub fn is_finite(&self) -> (r: bool)
        ensures
            r == self.finite(),
    {
        self.v.is_some()
    }

    /// Exact conversion: the length slot scales forward, the time slot,
    /// squared in the denominator, scales inverted twice.
    pub fn to<LB: LengthUnit, TB: TimeUnit>(&self) -> (r: Acceleration<LB, TB>)
        requires
            self.wf(),
        ensures
            r.wf(),
            r.mag() == spec_scale(spec_scale(spec_scale(self.mag(), L::spec_ratio(), LB::spec_ratio()), TB::spec_ratio(), T::spec_ratio()), TB::spec_ratio(), T::spec_ratio()),
    {
        proof {
            L::ratio_props();
            LB::ratio_props();
            T::ratio_props();
            TB::ratio_props();
        }
        let m = mag_scale(&self.v, &L::ratio(), &LB::ratio());
        let m = mag_scale(&m, &TB::ratio(), &T::ratio());
        let m = mag_scale(&m, &TB::ratio(), &T::ratio());
        Acceleration { v: m, unit: PhantomData }
    }

    /// Sum: the right operand is converted into this value's units first,
    /// and the result is expressed in this value's units.
    pub fn add<LB: LengthUnit, TB: TimeUnit>(&self, other: &Acceleration<LB, TB>) -> (r: Self)
        requires
            self.wf(),
            other.wf(),
        ensures
            r.wf(),
            r.mag() == spec_add(self.mag(), spec_scale(spec_scale(spec_scale(other.mag(), LB::spec_ratio(), L::spec_ratio()), T::spec_ratio(), TB::spec_ratio()), T::spec_ratio(), TB::spec_ratio())),
    {
        let o = other.to::<L, T>();
        Acceleration { v: mag_add(&self.v, &o.v), unit: PhantomData }
    }

    /// Difference, with the same conversion rule as `add`.
    pub fn sub<LB: LengthUnit, TB: TimeUnit>(&self, other: &Acceleration<LB, TB>) -> (r: Self)
        requires
            self.wf(),
            other.wf(),
        ensures
            r.wf(),
            r.mag() == spec_sub(self.mag(), spec_scale(spec_scale(spec_scale(other.mag(), LB::spec_ratio(), L::spec_ratio()), T::spec_ratio(), TB::spec_ratio()), T::spec_ratio(), TB::spec_ratio())),
    {
        let o = other.to::<L, T>();
        Acceleration { v: mag_sub(&self.v, &o.v), unit: PhantomData }
    }

    pub fn neg(&self) -> (r: Self)
        requires
            self.wf(),
        ensures
            r.wf(),
            r.mag() == spec_neg(self.mag()),
    {
        Acceleration { v: mag_neg(&self.v), unit: PhantomData }
    }

    /// Scaling by a dimensionless factor keeps the units unchanged.
    pub fn scale(&self, s: &Scalar) -> (r: Self)
        requires
            self.wf(),
            s.wf(),
        ensures
            r.wf(),
            r.mag() == spec_mul(self.mag(), s.mag()),
    {
        Acceleration { v: mag_mul(&self.v, &s.magnitude()), unit: PhantomData }
    }

    pub fn div_scalar(&self, s: &Scalar) -> (r: Self)
        requires
            self.wf(),
            s.wf(),
        ensures
            r.wf(),
            r.mag() == spec_div(self.mag(), s.mag()),
    {
        Acceleration { v: mag_div(&self.v, &s.magnitude()), unit: PhantomData }
    }

    /// Ratio of two same-family values: the divisor is converted into this
    /// value's units first, so the result is a pure number.
    pub fn div_same<LB: LengthUnit, TB: TimeUnit>(&self, other: &Acceleration<LB, TB>) -> (r: Scalar)
        requires
            self.wf(),
            other.wf(),
        ensures
            r.wf(),
            r.mag() == spec_div(self.mag(), spec_scale(spec_scale(spec_scale(other.mag(), LB::spec_ratio(), L::spec_ratio()), T::spec_ratio(), TB::spec_ratio()), T::spec_ratio(), TB::spec_ratio())),
    {
        let o = other.to::<L, T>();
        Scalar::from_mag(mag_div(&self.v, &o.v))
    }

    /// Total order on same-unit values, the non-finite value greatest.
    pub fn le(&self, other: &Self) -> (r: bool)
        requires
            self.wf(),
            other.wf(),
        ensures
            r == le_mag(self.mag(), other.mag()),
    {
        mag_le(&self.v, &other.v)
    }

    pub fn lt(&self, other: &Self) -> (r: bool)
        requires
            self.wf(),
            other.wf(),
        ensures
            r == lt_mag(self.mag(), other.mag()),
    {
        !mag_le(&other.v, &self.v)
    }

    /// Exact value equality on same-unit values.
    pub fn eq_val(&self, other: &Self) -> (r: bool)
        requires
            self.wf(),
            other.wf(),
        ensures
            r == eqv_mag(self.mag(), other.mag()),
    {
        mag_eq(&self.v, &other.v)
    }

    pub(crate) fn from_mag(m: Option<Rat>) -> (r: Self)
        requires
            mag_wf(m),
        ensures
            r.mag() == m,
            r.wf(),
    {
        Acceleration { v: m, unit: PhantomData }
    }

    /// Acceleration times time is a velocity; the time operand is
    /// converted into this value's time unit first.
    pub fn times_time<TB: TimeUnit>(&self, t: &Time<TB>) -> (r: Velocity<L, T>)
        requires
            self.wf(),
            t.wf(),
        ensures
            r.wf(),
            r.mag() == spec_mul(
                self.mag(),
                spec_scale(t.mag(), TB::spec_ratio(), T::spec_ratio()),
            ),
    {
        let o = t.to::<T>();
        Velocity::from_mag(mag_mul(&self.v, &o.magnitude()))
    }

    /// The magnitude as a multiple of standard gravity: the value in
    /// meters per second squared, divided by exactly 9.80665.
    pub fn g_number(&self) -> (r: Scalar)
        requires
            self.wf(),
        ensures
            r.wf(),
            r.mag() == spec_div(
                spec_scale(
                    spec_scale(
                        spec_scale(self.mag(), L::spec_ratio(), crate::units::Meters::spec_ratio()),
                        crate::units::Seconds::spec_ratio(),
                        T::spec_ratio(),
                    ),
                    crate::units::Seconds::spec_ratio(),
                    T::spec_ratio(),
                ),
                Some(Rat { num: 980665, den: 100000 }),
            ),
    {
        let si = self.to::<crate::units::Meters, crate::units::Seconds>();
        let g = Rat { num: 980665, den: 100000 };
        Scalar::from_mag(mag_div(&si.magnitude(), &Some(g)))
    }

    /// Lower into the dynamic engine: length over time twice.
    pub fn as_dyn(&self) -> (r: DynamicUnits)
        requires
            self.wf(),
        ensures
            r.wf(),
            r.mag() == self.mag(),
            r.nums() == Multiset::<UnitId>::empty().insert(L::spec_id()),
            r.dens() == Multiset::<UnitId>::empty().insert(T::spec_id()).insert(T::spec_id()),
    {
        DynamicUnits::new1o2::<L, T, T>(self.v)
    }

    /// Raise a dynamic chain to an acceleration: succeeds exactly when
    /// the chain's signature reduces to this type's signature.
    pub fn try_from_dyn(d: &DynamicUnits) -> (r: Option<Self>)
        requires
            d.wf(),
        ensures
            r is Some <==> d.sig_match(
                Multiset::<UnitId>::empty().insert(L::spec_id()),
                Multiset::<UnitId>::empty().insert(T::spec_id()).insert(T::spec_id()),
            ),
            r matches Some(q) ==> q.wf() && q.mag() == d.mag(),
    {
        let target = DynamicUnits::new1o2::<L, T, T>(None);
        if d.units_equal(&target) {
            Some(Acceleration { v: d.magnitude(), unit: PhantomData })
        } else {
            None
        }
    }
}
/// A squared speed: length squared per time squared.
pub struct VelocitySquared<L: LengthUnit, T: TimeUnit> {
    v: Option<Rat>,
    unit: PhantomData<(L, T)>,
}

impl<L: LengthUnit, T: TimeUnit> VelocitySquared<L, T> {
    /// The magnitude, expressed in this type's own units.
    pub closed spec fn mag(self) -> Option<Rat> {
        self.v
    }

    pub open spec fn wf(self) -> bool {
        mag_wf(self.mag())
    }

    pub open spec fn finite(self) -> bool {
        self.mag() is Some
    }

    pub fn new(v: Rat) -> (r: Self)
        requires
            v.wf(),
        ensures
            r.mag() == Some(v),
            r.wf(),
    {
        VelocitySquared { v: Some(v), unit: PhantomData }
    }

    pub fn from_int(v: i64) -> (r: Self)
        requires
            -MAG_LIMIT <= v as int,
        ensures
            r.wf(),
            r.mag() matches Some(q) && q.num == v as int && q.den == 1,
    {
        VelocitySquared { v: Some(Rat::from_int(v)), unit: PhantomData }
    }

    /// The value no finite representation exists for; it propagates
    /// through arithmetic and sorts after every finite value.
    pub fn non_finite() -> (r: Self)
        ensures
            r.mag() is None,
            r.wf(),
    {
        VelocitySquared { v: None, unit: PhantomData }
    }

    pub fn magnitude(&self) -> (r: Option<Rat>)
        ensures
            r == self.mag(),
    {
        self.v
    }

    pub fn is_finite(&self) -> (r: bool)
        ensures
            r == self.finite(),
    {
        self.v.is_some()
    }

    /// Exact conversion: both slots apply twice, the time slot inverted.
    pub fn to<LB: LengthUnit, TB: TimeUnit>(&self) -> (r: VelocitySquared<LB, TB>)
        requires
            self.wf(),
        ensures
            r.wf(),
            r.mag() == spec_scale(spec_scale(spec_scale(spec_scale(self.mag(), L::spec_ratio(), LB::spec_ratio()), L::spec_ratio(), LB::spec_ratio()), TB::spec_ratio(), T::spec_ratio()), TB::spec_ratio(), T::spec_ratio()),
    {
        proof {
            L::ratio_props();
            LB::ratio_props();
            T::ratio_props();
            TB::ratio_props();
        }
        let m = mag_scale(&self.v, &L::ratio(), &LB::ratio());
        let m = mag_scale(&m, &L::ratio(), &LB::ratio());
        let m = mag_scale(&m, &TB::ratio(), &T::ratio());
        let m = mag_scale(&m, &TB::ratio(), &T::ratio());
        VelocitySquared { v: m, unit: PhantomData }
    }

    /// Sum: the right operand is converted into this value's units first,
    /// and the result is expressed in this value's units.
    pub fn add<LB: LengthUnit, TB: TimeUnit>(&self, other: &VelocitySquared<LB, TB>) -> (r: Self)
        requires
            self.wf(),
            other.wf(),
        ensures
            r.wf(),
            r.mag() == spec_add(self.mag(), spec_scale(spec_scale(spec_scale(spec_scale(other.mag(), LB::spec_ratio(), L::spec_ratio()), LB::spec_ratio(), L::spec_ratio()), T::spec_ratio(), TB::spec_ratio()), T::spec_ratio(), TB::spec_ratio())),
    {
        let o = other.to::<L, T>();
        VelocitySquared { v: mag_add(&self.v, &o.v), unit: PhantomData }
    }

    /// Difference, with the same conversion rule as `add`.
    pub fn sub<LB: LengthUnit, TB: TimeUnit>(&self, other: &VelocitySquared<LB, TB>) -> (r: Self)
        requires
            self.wf(),
            other.wf(),
        ensures
            r.wf(),
            r.mag() == spec_sub(self.mag(), spec_scale(spec_scale(spec_scale(spec_scale(other.mag(), LB::spec_ratio(), L::spec_ratio()), LB::spec_ratio(), L::spec_ratio()), T::spec_ratio(), TB::spec_ratio()), T::spec_ratio(), TB::spec_ratio())),
    {
        let o = other.to::<L, T>();
        VelocitySquared { v: mag_sub(&self.v, &o.v), unit: PhantomData }
    }

    pub fn neg(&self) -> (r: Self)
        requires
            self.wf(),
        ensures
            r.wf(),
            r.mag() == spec_neg(self.mag()),
    {
        VelocitySquared { v: mag_neg(&self.v), unit: PhantomData }
    }

    /// Scaling by a dimensionless factor keeps the units unchanged.
    pub fn scale(&self, s: &Scalar) -> (r: Self)
        requires
            self.wf(),
            s.wf(),
        ensures
            r.wf(),
            r.mag() == spec_mul(self.mag(), s.mag()),
    {
        VelocitySquared { v: mag_mul(&self.v, &s.magnitude()), unit: PhantomData }
    }

    pub fn div_scalar(&self, s: &Scalar) -> (r: Self)
        requires
            self.wf(),
            s.wf(),
        ensures
            r.wf(),
            r.mag() == spec_div(self.mag(), s.mag()),
    {
        VelocitySquared { v: mag_div(&self.v, &s.magnitude()), unit: PhantomData }
    }

    /// Ratio of two same-family values: the divisor is converted into this
    /// value's units first, so the result is a pure number.
    pub fn div_same<LB: LengthUnit, TB: TimeUnit>(&self, other: &VelocitySquared<LB, TB>) -> (r: Scalar)
        requires
            self.wf(),
            other.wf(),
        ensures
            r.wf(),
            r.mag() == spec_div(self.mag(), spec_scale(spec_scale(spec_scale(spec_scale(other.mag(), LB::spec_ratio(), L::spec_ratio()), LB::spec_ratio(), L::spec_ratio()), T::spec_ratio(), TB::spec_ratio()), T::spec_ratio(), TB::spec_ratio())),
    {
        let o = other.to::<L, T>();
        Scalar::from_mag(mag_div(&self.v, &o.v))
    }

    /// Total order on same-unit values, the non-finite value greatest.
    pub fn le(&self, other: &Self) -> (r: bool)
        requires
            self.wf(),
            other.wf(),
        ensures
            r == le_mag(self.mag(), other.mag()),
    {
        mag_le(&self.v, &other.v)
    }

    pub fn lt(&self, other: &Self) -> (r: bool)
        requires
            self.wf(),
            other.wf(),
        ensures
            r == lt_mag(self.mag(), other.mag()),
    {
        !mag_le(&other.v, &self.v)
    }

    /// Exact value equality on same-unit values.
    pub fn eq_val(&self, other: &Self) -> (r: bool)
        requires
            self.wf(),
            other.wf(),
        ensures
            r == eqv_mag(self.mag(), other.mag()),
    {
        mag_eq(&self.v, &other.v)
    }

    pub(crate) fn from_mag(m: Option<Rat>) -> (r: Self)
        requires
            mag_wf(m),
        ensures
            r.mag() == m,
            r.wf(),
    {
        VelocitySquared { v: m, unit: PhantomData }
    }

    /// Lower into the dynamic engine: length twice over time twice.
    pub fn as_dyn(&self) -> (r: DynamicUnits)
        requires
            self.wf(),
        ensures
            r.wf(),
            r.mag() == self.mag(),
            r.nums() == Multiset::<UnitId>::empty().insert(L::spec_id()).insert(L::spec_id()),
            r.dens() == Multiset::<UnitId>::empty().insert(T::spec_id()).insert(T::spec_id()),
    {
        DynamicUnits::new2o2::<L, L, T, T>(self.v)
    }
}

impl<L: LengthUnit, T: TimeUnit> Clone for Velocity<L, T> {
    fn clone(&self) -> (r: Self)
        ensures
            r.mag() == self.mag(),
    {
        Velocity { v: self.v, unit: PhantomData }
    }
}

impl<L: LengthUnit, T: TimeUnit> Clone for Acceleration<L, T> {
    fn clone(&self) -> (r: Self)
        ensures
            r.mag() == self.mag(),
    {
        Acceleration { v: self.v, unit: PhantomData }
    }
}

impl<L: LengthUnit, T: TimeUnit> Clone for VelocitySquared<L, T> {
    fn clone(&self) -> (r: Self)
        ensures
            r.mag() == self.mag(),
    {
        VelocitySquared { v: self.v, unit: PhantomData }
    }
}

} // verus!
