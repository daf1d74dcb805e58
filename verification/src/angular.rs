use vstd::prelude::*;
use vstd::multiset::Multiset;
use core::marker::PhantomData;
use crate::dynamic::DynamicUnits;
use crate::rational::{
    eqv_mag, le_mag, lt_mag, mag_add, mag_div, mag_eq, mag_le, mag_mul, mag_neg, mag_scale,
    mag_sub, mag_wf, spec_add, spec_div, spec_mul, spec_neg, spec_scale, spec_sub, Rat, MAG_LIMIT,
};
use crate::scalar::Scalar;
use crate::angle::Angle;
use crate::time::Time;
use crate::units::{AngleUnit, TimeUnit, Unit, UnitId};

verus! {
/// A rotation rate: angle per time.
pub struct AngularVelocity<A: AngleUnit, T: TimeUnit> {
    v: Option<Rat>,
    unit: PhantomData<(A, T)>,
}

impl<A: AngleUnit, T: TimeUnit> AngularVelocity<A, T> {
    /// The magnitude, expressed in this type's own units.
    pub closed spec fn mag(self) -> Option<Rat> {
        self.v
    }

    pub open spec fn wf(self) -> bool {
        mag_wf(self.mag())
    }

    pub open spec fn finite(self) -> bool {
        self.mag() is Some
    }

    pub fn new(v: Rat) -> (r: Self)
        requires
            v.wf(),
        ensures
            r.mag() == Some(v),
            r.wf(),
    {
        AngularVelocity { v: Some(v), unit: PhantomData }
    }

    pub fn from_int(v: i64) -> (r: Self)
        requires
            -MAG_LIMIT <= v as int,
        ensures
            r.wf(),
            r.mag() matches Some(q) && q.num == v as int && q.den == 1,
    {
        AngularVelocity { v: Some(Rat::from_int(v)), unit: PhantomData }
    }

    /// The value no finite representation exists for; it propagates
    /// through arithmetic and sorts after every finite value.
    pub fn non_finite() -> (r: Self)
        ensures
            r.mag() is None,
            r.wf(),
    {
        AngularVelocity { v: None, unit: PhantomData }
    }

    pub fn magnitude(&self) -> (r: Option<Rat>)
        ensures
            r == self.mag(),
    {
        self.v
    }

    pub fn is_finite(&self) -> (r: bool)
        ensures
            r == self.finite(),
    {
        self.v.is_some()
    }

    /// Exact conversion: the angle slot scales forward, the time slot,
    /// being a divisor, scales inverted.
    pub fn to<AB: AngleUnit, TB: TimeUnit>(&self) -> (r: AngularVelocity<AB, TB>)
        requires
            self.wf(),
        ensures
            r.wf(),
            r.mag() == spec_scale(spec_scale(self.mag(), A::spec_ratio(), AB::spec_ratio()), TB::spec_ratio(), T::spec_ratio()),
    {
        proof {
            A::ratio_props();
            AB::ratio_props();
            T::ratio_props();
            TB::ratio_props();
        }
        let m = mag_scale(&self.v, &A::ratio(), &AB::ratio());
        let m = mag_scale(&m, &TB::ratio(), &T::ratio());
        AngularVelocity { v: m, unit: PhantomData }
    }

    /// Sum: the right operand is converted into this value's units first,
    /// and the result is expressed in this value's units.
    pub fn add<AB: AngleUnit, TB: TimeUnit>(&self, other: &AngularVelocity<AB, TB>) -> (r: Self)
        requires
            self.wf(),
            other.wf(),
        ensures
            r.wf(),
            r.mag() == spec_add(self.mag(), spec_scale(spec_scale(other.mag(), AB::spec_ratio(), A::spec_ratio()), T::spec_ratio(), TB::spec_ratio())),
    {
        let o = other.to::<A, T>();
        AngularVelocity { v: mag_add(&self.v, &o.v), unit: PhantomData }
    }

    /// Difference, with the same conversion rule as `add`.
    pub fn sub<AB: AngleUnit, TB: TimeUnit>(&self, other: &AngularVelocity<AB, TB>) -> (r: Self)
        requires
            self.wf(),
            other.wf(),
        ensures
            r.wf(),
            r.mag() == spec_sub(self.mag(), spec_scale(spec_scale(other.mag(), AB::spec_ratio(), A::spec_ratio()), T::spec_ratio(), TB::spec_ratio())),
    {
        let o = other.to::<A, T>();
        AngularVelocity { v: mag_sub(&self.v, &o.v), unit: PhantomData }
    }

    pub fn neg(&self) -> (r: Self)
        requires
            self.wf(),
        ensures
            r.wf(),
            r.mag() == spec_neg(self.mag()),
    {
        AngularVelocity { v: mag_neg(&self.v), unit: PhantomData }
    }

    /// Scaling by a dimensionless factor keeps the units unchanged.
    pub fn scale(&self, s: &Scalar) -> (r: Self)
        requires
            self.wf(),
            s.wf(),
        ensures
            r.wf(),
            r.mag() == spec_mul(self.mag(), s.mag()),
    {
        AngularVelocity { v: mag_mul(&self.v, &s.magnitude()), unit: PhantomData }
    }

    pub fn div_scalar(&self, s: &Scalar) -> (r: Self)
        requires
            self.wf(),
            s.wf(),
        ensures
            r.wf(),
            r.mag() == spec_div(self.mag(), s.mag()),
    {
        AngularVelocity { v: mag_div(&self.v, &s.magnitude()), unit: PhantomData }
    }

    /// Ratio of two same-family values: the divisor is converted into this
    /// value's units first, so the result is a pure number.
    pub fn div_same<AB: AngleUnit, TB: TimeUnit>(&self, other: &AngularVelocity<AB, TB>) -> (r: Scalar)
        requires
            self.wf(),
            other.wf(),
        ensures
            r.wf(),
            r.mag() == spec_div(self.mag(), spec_scale(spec_scale(other.mag(), AB::spec_ratio(), A::spec_ratio()), T::spec_ratio(), TB::spec_ratio())),
    {
        let o = other.to::<A, T>();
        Scalar::from_mag(mag_div(&self.v, &o.v))
    }

    /// Total order on same-unit values, the non-finite value greatest.
    pub fn le(&self, other: &Self) -> (r: bool)
        requires
            self.wf(),
            other.wf(),
        ensures
            r == le_mag(self.mag(), other.mag()),
    {
        mag_le(&self.v, &other.v)
    }

    pub fn lt(&self, other: &Self) -> (r: bool)
        requires
            self.wf(),
            other.wf(),
        ensures
            r == lt_mag(self.mag(), other.mag()),
    {
        !mag_le(&other.v, &self.v)
    }

    /// Exact value equality on same-unit values.
    pub fn eq_val(&self, other: &Self) -> (r: bool)
        requires
            self.wf(),
            other.wf(),
        ensures
            r == eqv_mag(self.mag(), other.mag()),
    {
        mag_eq(&self.v, &other.v)
    }

    pub(crate) fn from_mag(m: Option<Rat>) -> (r: Self)
        requires
            mag_wf(m),
        ensures
            r.mag() == m,
            r.wf(),
    {
        AngularVelocity { v: m, unit: PhantomData }
    }

    /// Angular velocity times time is an angle; the time operand is
    /// converted into this value's time unit first.
    pub fn times_time<TB: TimeUnit>(&self, t: &Time<TB>) -> (r: Angle<A>)
        requires
            self.wf(),
            t.wf(),
        ensures
            r.wf(),
            r.mag() == spec_mul(
                self.mag(),
                spec_scale(t.mag(), TB::spec_ratio(), T::spec_ratio()),
            ),
    {
        let o = t.to::<T>();
        Angle::from_mag(mag_mul(&self.v, &o.magnitude()))
    }

    /// Angular velocity over time is an angular acceleration; the divisor
    /// is converted into this value's time unit first.
    pub fn per_time<TB: TimeUnit>(&self, t: &Time<TB>) -> (r: AngularAcceleration<A, T>)
        requires
            self.wf(),
            t.wf(),
        ensures
            r.wf(),
            r.mag() == spec_div(
                self.mag(),
                spec_scale(t.mag(), TB::spec_ratio(), T::spec_ratio()),
            ),
    {
        let o = t.to::<T>();
        AngularAcceleration { v: mag_div(&self.v, &o.magnitude()), unit: PhantomData }
    }

    /// Lower into the dynamic engine: angle over time.
    pub fn as_dyn(&self) -> (r: DynamicUnits)
        requires
            self.wf(),
        ensures
            r.wf(),
            r.mag() == self.mag(),
            r.nums() == Multiset::<UnitId>::empty().insert(A::spec_id()),
            r.dens() == Multiset::<UnitId>::empty().insert(T::spec_id()),
    {
        DynamicUnits::new1o1::<A, T>(self.v)
    }
}
/// A change of rotation rate: angle per time squared.
pub struct AngularAcceleration<A: AngleUnit, T: TimeUnit> {
    v: Option<Rat>,
    unit: PhantomData<(A, T)>,
}

impl<A: AngleUnit, T: TimeUnit> AngularAcceleration<A, T> {
    /// The magnitude, expressed in this type's own units.
    pub closed spec fn mag(self) -> Option<Rat> {
        self.v
    }

    pub open spec fn wf(self) -> bool {
        mag_wf(self.mag())
    }

    pub open spec fn finite(self) -> bool {
        self.mag() is Some
    }

    pub fn new(v: Rat) -> (r: Self)
        requires
            v.wf(),
        ensures
            r.mag() == Some(v),
            r.wf(),
    {
        AngularAcceleration { v: Some(v), unit: PhantomData }
    }

    pub fn from_int(v: i64) -> (r: Self)
        requires
            -MAG_LIMIT <= v as int,
        ensures
            r.wf(),
            r.mag() matches Some(q) && q.num == v as int && q.den == 1,
    {
        AngularAcceleration { v: Some(Rat::from_int(v)), unit: PhantomData }
    }

    /// The value no finite representation exists for; it propagates
    /// through arithmetic and sorts after every finite value.
    pub fn non_finite() -> (r: Self)
        ensures
            r.mag() is None,
            r.wf(),
    {
        AngularAcceleration { v: None, unit: PhantomData }
    }

    pub fn magnitude(&self) -> (r: Option<Rat>)
        ensures
            r == self.mag(),
    {
        self.v
    }

    pub fn is_finite(&self) -> (r: bool)
        ensures
            r == self.finite(),
    {
        self.v.is_some()
    }

    /// Exact conversion: the angle slot scales forward, the squared time
    /// slot, being a divisor, scales inverted twice.
    pub fn to<AB: AngleUnit, TB: TimeUnit>(&self) -> (r: AngularAcceleration<AB, TB>)
        requires
            self.wf(),
        ensures
            r.wf(),
            r.mag() == spec_scale(spec_scale(spec_scale(self.mag(), A::spec_ratio(), AB::spec_ratio()), TB::spec_ratio(), T::spec_ratio()), TB::spec_ratio(), T::spec_ratio()),
    {
        proof {
            A::ratio_props();
            AB::ratio_props();
            T::ratio_props();
            TB::ratio_props();
        }
        let m = mag_scale(&self.v, &A::ratio(), &AB::ratio());
        let m = mag_scale(&m, &TB::ratio(), &T::ratio());
        let m = mag_scale(&m, &TB::ratio(), &T::ratio());
        AngularAcceleration { v: m, unit: PhantomData }
    }

    /// Sum: the right operand is converted into this value's units first,
    /// and the result is expressed in this value's units.
    pub fn add<AB: AngleUnit, TB: TimeUnit>(&self, other: &AngularAcceleration<AB, TB>) -> (r: Self)
        requires
            self.wf(),
            other.wf(),
        ensures
            r.wf(),
            r.mag() == spec_add(self.mag(), spec_scale(spec_scale(spec_scale(other.mag(), AB::spec_ratio(), A::spec_ratio()), T::spec_ratio(), TB::spec_ratio()), T::spec_ratio(), TB::spec_ratio())),
    {
        let o = other.to::<A, T>();
        AngularAcceleration { v: mag_add(&self.v, &o.v), unit: PhantomData }
    }

    /// Difference, with the same conversion rule as `add`.
    pub fn sub<AB: AngleUnit, TB: TimeUnit>(&self, other: &AngularAcceleration<AB, TB>) -> (r: Self)
        requires
            self.wf(),
            other.wf(),
        ensures
            r.wf(),
            r.mag() == spec_sub(self.mag(), spec_scale(spec_scale(spec_scale(other.mag(), AB::spec_ratio(), A::spec_ratio()), T::spec_ratio(), TB::spec_ratio()), T::spec_ratio(), TB::spec_ratio())),
    {
        let o = other.to::<A, T>();
        AngularAcceleration { v: mag_sub(&self.v, &o.v), unit: PhantomData }
    }

    pub fn neg(&self) -> (r: Self)
        requires
            self.wf(),
        ensures
            r.wf(),
            r.mag() == spec_neg(self.mag()),
    {
        AngularAcceleration { v: mag_neg(&self.v), unit: PhantomData }
    }

    /// Scaling by a dimensionless factor keeps the units unchanged.
    pub fn scale(&self, s: &Scalar) -> (r: Self)
        requires
            self.wf(),
            s.wf(),
        ensures
            r.wf(),
            r.mag() == spec_mul(self.mag(), s.mag()),
    {
        AngularAcceleration { v: mag_mul(&self.v, &s.magnitude()), unit: PhantomData }
    }

    pub fn div_scalar(&self, s: &Scalar) -> (r: Self)
        requires
            self.wf(),
            s.wf(),
        ensures
            r.wf(),
            r.mag() == spec_div(self.mag(), s.mag()),
    {
        AngularAcceleration { v: mag_div(&self.v, &s.magnitude()), unit: PhantomData }
    }

    /// Ratio of two same-family values: the divisor is converted into this
    /// value's units first, so the result is a pure number.
    pub fn div_same<AB: AngleUnit, TB: TimeUnit>(&self, other: &AngularAcceleration<AB, TB>) -> (r: Scalar)
        requires
            self.wf(),
            other.wf(),
        ensures
            r.wf(),
            r.mag() == spec_div(self.mag(), spec_scale(spec_scale(spec_scale(other.mag(), AB::spec_ratio(), A::spec_ratio()), T::spec_ratio(), TB::spec_ratio()), T::spec_ratio(), TB::spec_ratio())),
    {
        let o = other.to::<A, T>();
        Scalar::from_mag(mag_div(&self.v, &o.v))
    }

    /// Total order on same-unit values, the non-finite value greatest.
    pub fn le(&self, other: &Self) -> (r: bool)
        requires
            self.wf(),
            other.wf(),
        ensures
            r == le_mag(self.mag(), other.mag()),
    {
        mag_le(&self.v, &other.v)
    }

    pub fn lt(&self, other: &Self) -> (r: bool)
        requires
            self.wf(),
            other.wf(),
        ensures
            r == lt_mag(self.mag(), other.mag()),
    {
        !mag_le(&other.v, &self.v)
    }

    /// Exact value equality on same-unit values.
    pub fn eq_val(&self, other: &Self) -> (r: bool)
        requires
            self.wf(),
            other.wf(),
        ensures
            r == eqv_mag(self.mag(), other.mag()),
    {
        mag_eq(&self.v, &other.v)
    }

    pub(crate) fn from_mag(m: Option<Rat>) -> (r: Self)
        requires
            mag_wf(m),
        ensures
            r.mag() == m,
            r.wf(),
    {
        AngularAcceleration { v: m, unit: PhantomData }
    }

    /// Angular acceleration times time is an angular velocity; the time
    /// operand is converted into this value's time unit first.
    pub fn times_time<TB: TimeUnit>(&self, t: &Time<TB>) -> (r: AngularVelocity<A, T>)
        requires
            self.wf(),
            t.wf(),
        ensures
            r.wf(),
            r.mag() == spec_mul(
                self.mag(),
                spec_scale(t.mag(), TB::spec_ratio(), T::spec_ratio()),
            ),
    {
        let o = t.to::<T>();
        AngularVelocity::from_mag(mag_mul(&self.v, &o.magnitude()))
    }

    /// Lower into the dynamic engine: angle over time twice.
    pub fn as_dyn(&self) -> (r: DynamicUnits)
        requires
            self.wf(),
        ensures
            r.wf(),
            r.mag() == self.mag(),
            r.nums() == Multiset::<UnitId>::empty().insert(A::spec_id()),
            r.dens() == Multiset::<UnitId>::empty().insert(T::spec_id()).insert(T::spec_id()),
    {
        DynamicUnits::new1o2::<A, T, T>(self.v)
    }

    /// Raise a dynamic chain to an angular acceleration: succeeds exactly
    /// when the chain's signature reduces to this type's signature.
    pub fn try_from_dyn(d: &DynamicUnits) -> (r: Option<Self>)
        requires
            d.wf(),
        ensures
            r is Some <==> d.sig_match(
                Multiset::<UnitId>::empty().insert(A::spec_id()),
                Multiset::<UnitId>::empty().insert(T::spec_id()).insert(T::spec_id()),
            ),
            r matches Some(q) ==> q.wf() && q.mag() == d.mag(),
    {
        let target = DynamicUnits::new1o2::<A, T, T>(None);
        if d.units_equal(&target) {
            Some(AngularAcceleration { v: d.magnitude(), unit: PhantomData })
        } else {
            None
        }
    }
}

impl<A: AngleUnit, T: TimeUnit> Clone for AngularVelocity<A, T> {
    fn clone(&self) -> (r: Self)
        ensures
            r.mag() == self.mag(),
    {
        AngularVelocity { v: self.v, unit: PhantomData }
    }
}

impl<A: AngleUnit, T: TimeUnit> Clone for AngularAcceleration<A, T> {
    fn clone(&self) -> (r: Self)
        ensures
            r.mag() == self.mag(),
    {
        AngularAcceleration { v: self.v, unit: PhantomData }
    }
}

} // verus!
