use vstd::prelude::*;
use vstd::multiset::Multiset;
use core::marker::PhantomData;
use crate::dynamic::DynamicUnits;
use crate::rational::{
    eqv_mag, le_mag, lt_mag, mag_add, mag_div, mag_eq, mag_le, mag_mul, mag_neg, mag_scale,
    mag_sub, mag_wf, spec_add, spec_div, spec_mul, spec_neg, spec_scale, spec_sub, Rat, MAG_LIMIT,
};
use crate::scalar::Scalar;
use crate::force::Force;
use crate::length::{Area, Volume};
use crate::time::Time;
use crate::units::{Kilograms, LengthUnit, MassUnit, Meters, Newtons, Seconds, TimeUnit, Unit,
    UnitId};
use crate::velocity::Acceleration;

verus! {
/// A mass expressed in the mass unit `M`.
pub struct Mass<M: MassUnit> {
    v: Option<Rat>,
    unit: PhantomData<M>,
}

impl<M: MassUnit> Mass<M> {
    /// The magnitude, expressed in this type's own units.
    pub closed spec fn mag(self) -> Option<Rat> {
        self.v
    }

    pub open spec fn wf(self) -> bool {
        mag_wf(self.mag())
    }

    pub open spec fn finite(self) -> bool {
        self.mag() is Some
    }

    pub fn new(v: Rat) -> (r: Self)
        requires
            v.wf(),
        ensures
            r.mag() == Some(v),
            r.wf(),
    {
        Mass { v: Some(v), unit: PhantomData }
    }

    pub fn from_int(v: i64) -> (r: Self)
        requires
            -MAG_LIMIT <= v as int,
        ensures
            r.wf(),
            r.mag() matches Some(q) && q.num == v as int && q.den == 1,
    {
        Mass { v: Some(Rat::from_int(v)), unit: PhantomData }
    }

    /// The value no finite representation exists for; it propagates
    /// through arithmetic and sorts after every finite value.
    pub fn non_finite() -> (r: Self)
        ensures
            r.mag() is None,
            r.wf(),
    {
        Mass { v: None, unit: PhantomData }
    }

    pub fn magnitude(&self) -> (r: Option<Rat>)
        ensures
            r == self.mag(),
    {
        self.v
    }

    pub fn is_finite(&self) -> (r: bool)
        ensures
            r == self.finite(),
    {
        self.v.is_some()
    }

    /// Exact conversion into another mass unit.
    pub fn to<MB: MassUnit>(&self) -> (r: Mass<MB>)
        requires
            self.wf(),
        ensures
            r.wf(),
            r.mag() == spec_scale(self.mag(), M::spec_ratio(), MB::spec_ratio()),
    {
        proof {
            M::ratio_props();
            MB::ratio_props();
        }
        let m = mag_scale(&self.v, &M::ratio(), &MB::ratio());
        Mass { v: m, unit: PhantomData }
    }

    /// Sum: the right operand is converted into this value's units first,
    /// and the result is expressed in this value's units.
    pub fn add<MB: MassUnit>(&self, other: &Mass<MB>) -> (r: Self)
        requires
            self.wf(),
            other.wf(),
        ensures
            r.wf(),
            r.mag() == spec_add(self.mag(), spec_scale(other.mag(), MB::spec_ratio(), M::spec_ratio())),
    {
        let o = other.to::<M>();
        Mass { v: mag_add(&self.v, &o.v), unit: PhantomData }
    }

    /// Difference, with the same conversion rule as `add`.
    pub fn sub<MB: MassUnit>(&self, other: &Mass<MB>) -> (r: Self)
        requires
            self.wf(),
            other.wf(),
        ensures
            r.wf(),
            r.mag() == spec_sub(self.mag(), spec_scale(other.mag(), MB::spec_ratio(), M::spec_ratio())),
    {
        let o = other.to::<M>();
        Mass { v: mag_sub(&self.v, &o.v), unit: PhantomData }
    }

    pub fn neg(&self) -> (r: Self)
        requires
            self.wf(),
        ensures
            r.wf(),
            r.mag() == spec_neg(self.mag()),
    {
        Mass { v: mag_neg(&self.v), unit: PhantomData }
    }

    /// Scaling by a dimensionless factor keeps the units unchanged.
    pub fn scale(&self, s: &Scalar) -> (r: Self)
        requires
            self.wf(),
            s.wf(),
        ensures
            r.wf(),
            r.mag() == spec_mul(self.mag(), s.mag()),
    {
        Mass { v: mag_mul(&self.v, &s.magnitude()), unit: PhantomData }
    }

    pub fn div_scalar(&self, s: &Scalar) -> (r: Self)
        requires
            self.wf(),
            s.wf(),
        ensures
            r.wf(),
            r.mag() == spec_div(self.mag(), s.mag()),
    {
        Mass { v: mag_div(&self.v, &s.magnitude()), unit: PhantomData }
    }

    /// Ratio of two same-family values: the divisor is converted into this
    /// value's units first, so the result is a pure number.
    pub fn div_same<MB: MassUnit>(&self, other: &Mass<MB>) -> (r: Scalar)
        requires
            self.wf(),
            other.wf(),
        ensures
            r.wf(),
            r.mag() == spec_div(self.mag(), spec_scale(other.mag(), MB::spec_ratio(), M::spec_ratio())),
    {
        let o = other.to::<M>();
        Scalar::from_mag(mag_div(&self.v, &o.v))
    }

    /// Total order on same-unit values, the non-finite value greatest.
    pub fn le(&self, other: &Self) -> (r: bool)
        requires
            self.wf(),
            other.wf(),
        ensures
            r == le_mag(self.mag(), other.mag()),
    {
        mag_le(&self.v, &other.v)
    }

    pub fn lt(&self, other: &Self) -> (r: bool)
        requires
            self.wf(),
            other.wf(),
        ensures
            r == lt_mag(self.mag(), other.mag()),
    {
        !mag_le(&other.v, &self.v)
    }

    /// Exact value equality on same-unit values.
    pub fn eq_val(&self, other: &Self) -> (r: bool)
        requires
            self.wf(),
            other.wf(),
        ensures
            r == eqv_mag(self.mag(), other.mag()),
    {
        mag_eq(&self.v, &other.v)
    }

    pub(crate) fn from_mag(m: Option<Rat>) -> (r: Self)
        requires
            mag_wf(m),
        ensures
            r.mag() == m,
            r.wf(),
    {
        Mass { v: m, unit: PhantomData }
    }


    /// Mass times acceleration is a force. The result is fixed in
    /// newtons: the mass converts to kilograms and the acceleration to
    /// meters per second squared before multiplying.
    pub fn times_acceleration<L: LengthUnit, T: TimeUnit>(&self, acc: &Acceleration<L, T>) -> (r:
        Force<Newtons>)
        requires
            self.wf(),
            acc.wf(),
        ensures
            r.wf(),
            r.mag() == spec_mul(
                spec_scale(self.mag(), M::spec_ratio(), Kilograms::spec_ratio()),
                spec_scale(
                    spec_scale(
                        spec_scale(acc.mag(), L::spec_ratio(), Meters::spec_ratio()),
                        Seconds::spec_ratio(),
                        T::spec_ratio(),
                    ),
                    Seconds::spec_ratio(),
                    T::spec_ratio(),
                ),
            ),
    {
        let kg = self.to::<Kilograms>();
        let si = acc.to::<Meters, Seconds>();
        Force::from_mag(mag_mul(&kg.magnitude(), &si.magnitude()))
    }

    /// Mass over time is a mass rate; the divisor keeps its own unit.
    pub fn per_time<T: TimeUnit>(&self, t: &Time<T>) -> (r: MassRate<M, T>)
        requires
            self.wf(),
            t.wf(),
        ensures
            r.wf(),
            r.mag() == spec_div(self.mag(), t.mag()),
    {
        MassRate { v: mag_div(&self.v, &t.magnitude()), unit: PhantomData }
    }

    /// Mass over volume is a density; the divisor keeps its own unit.
    pub fn per_volume<L: LengthUnit>(&self, vol: &Volume<L>) -> (r: Density<M, L>)
        requires
            self.wf(),
            vol.wf(),
        ensures
            r.wf(),
            r.mag() == spec_div(self.mag(), vol.mag()),
    {
        Density { v: mag_div(&self.v, &vol.magnitude()), unit: PhantomData }
    }

    /// Mass times area is a rotational inertia, in the operands' units.
    pub fn times_area<L: LengthUnit>(&self, a: &Area<L>) -> (r: RotationalInertia<M, L>)
        requires
            self.wf(),
            a.wf(),
        ensures
            r.wf(),
            r.mag() == spec_mul(self.mag(), a.mag()),
    {
        RotationalInertia { v: mag_mul(&self.v, &a.magnitude()), unit: PhantomData }
    }

    /// Lower into the dynamic engine: one numerator identity.
    pub fn as_dyn(&self) -> (r: DynamicUnits)
        requires
            self.wf(),
        ensures
            r.wf(),
            r.mag() == self.mag(),
            r.nums() == Multiset::<UnitId>::empty().insert(M::spec_id()),
            r.dens() == Multiset::<UnitId>::empty(),
    {
        DynamicUnits::new1o0::<M>(self.v)
    }
}
/// A flow of mass: mass per time.
pub struct MassRate<M: MassUnit, T: TimeUnit> {
    v: Option<Rat>,
    unit: PhantomData<(M, T)>,
}

impl<M: MassUnit, T: TimeUnit> MassRate<M, T> {
    /// The magnitude, expressed in this type's own units.
    pub closed spec fn mag(self) -> Option<Rat> {
        self.v
    }

    pub open spec fn wf(self) -> bool {
        mag_wf(self.mag())
    }

    pub open spec fn finite(self) -> bool {
        self.mag() is Some
    }

    pub fn new(v: Rat) -> (r: Self)
        requires
            v.wf(),
        ensures
            r.mag() == Some(v),
            r.wf(),
    {
        MassRate { v: Some(v), unit: PhantomData }
    }

    pub fn from_int(v: i64) -> (r: Self)
        requires
            -MAG_LIMIT <= v as int,
        ensures
            r.wf(),
            r.mag() matches Some(q) && q.num == v as int && q.den == 1,
    {
        MassRate { v: Some(Rat::from_int(v)), unit: PhantomData }
    }

    /// The value no finite representation exists for; it propagates
    /// through arithmetic and sorts after every finite value.
    pub fn non_finite() -> (r: Self)
        ensures
            r.mag() is None,
            r.wf(),
    {
        MassRate { v: None, unit: PhantomData }
    }

    pub fn magnitude(&self) -> (r: Option<Rat>)
        ensures
            r == self.mag(),
    {
        self.v
    }

    pub fn is_finite(&self) -> (r: bool)
        ensures
            r == self.finite(),
    {
        self.v.is_some()
    }

    /// Exact conversion: the mass slot scales forward, the time slot,
    /// being a divisor, scales inverted.
    pub fn to<MB: MassUnit, TB: TimeUnit>(&self) -> (r: MassRate<MB, TB>)
        requires
            self.wf(),
        ensures
            r.wf(),
            r.mag() == spec_scale(spec_scale(self.mag(), M::spec_ratio(), MB::spec_ratio()), TB::spec_ratio(), T::spec_ratio()),
    {
        proof {
            M::ratio_props();
            MB::ratio_props();
            T::ratio_props();
            TB::ratio_props();
        }
        let m = mag_scale(&self.v, &M::ratio(), &MB::ratio());
        let m = mag_scale(&m, &TB::ratio(), &T::ratio());
        MassRate { v: m, unit: PhantomData }
    }

    /// Sum: the right operand is converted into this value's units first,
    /// and the result is expressed in this value's units.
    pub fn add<MB: MassUnit, TB: TimeUnit>(&self, other: &MassRate<MB, TB>) -> (r: Self)
        requires
            self.wf(),
            other.wf(),
        ensures
            r.wf(),
            r.mag() == spec_add(self.mag(), spec_scale(spec_scale(other.mag(), MB::spec_ratio(), M::spec_ratio()), T::spec_ratio(), TB::spec_ratio())),
    {
        let o = other.to::<M, T>();
        MassRate { v: mag_add(&self.v, &o.v), unit: PhantomData }
    }

    /// Difference, with the same conversion rule as `add`.
    pub fn sub<MB: MassUnit, TB: TimeUnit>(&self, other: &MassRate<MB, TB>) -> (r: Self)
        requires
            self.wf(),
            other.wf(),
        ensures
            r.wf(),
            r.mag() == spec_sub(self.mag(), spec_scale(spec_scale(other.mag(), MB::spec_ratio(), M::spec_ratio()), T::spec_ratio(), TB::spec_ratio())),
    {
        let o = other.to::<M, T>();
        MassRate { v: mag_sub(&self.v, &o.v), unit: PhantomData }
    }

    pub fn neg(&self) -> (r: Self)
        requires
            self.wf(),
        ensures
            r.wf(),
            r.mag() == spec_neg(self.mag()),
    {
        MassRate { v: mag_neg(&self.v), unit: PhantomData }
    }

    /// Scaling by a dimensionless factor keeps the units unchanged.
    pub fn scale(&self, s: &Scalar) -> (r: Self)
        requires
            self.wf(),
            s.wf(),
        ensures
            r.wf(),
            r.mag() == spec_mul(self.mag(), s.mag()),
    {
        MassRate { v: mag_mul(&self.v, &s.magnitude()), unit: PhantomData }
    }

    pub fn div_scalar(&self, s: &Scalar) -> (r: Self)
        requires
            self.wf(),
            s.wf(),
        ensures
            r.wf(),
            r.mag() == spec_div(self.mag(), s.mag()),
    {
        MassRate { v: mag_div(&self.v, &s.magnitude()), unit: PhantomData }
    }

    /// Ratio of two same-family values: the divisor is converted into this
    /// value's units first, so the result is a pure number.
    pub fn div_same<MB: MassUnit, TB: TimeUnit>(&self, other: &MassRate<MB, TB>) -> (r: Scalar)
        requires
            self.wf(),
            other.wf(),
        ensures
            r.wf(),
            r.mag() == spec_div(self.mag(), spec_scale(spec_scale(other.mag(), MB::spec_ratio(), M::spec_ratio()), T::spec_ratio(), TB::spec_ratio())),
    {
        let o = other.to::<M, T>();
        Scalar::from_mag(mag_div(&self.v, &o.v))
    }

    /// Total order on same-unit values, the non-finite value greatest.
    pub fn le(&self, other: &Self) -> (r: bool)
        requires
            self.wf(),
            other.wf(),
        ensures
            r == le_mag(self.mag(), other.mag()),
    {
        mag_le(&self.v, &other.v)
    }

    pub fn lt(&self, other: &Self) -> (r: bool)
        requires
            self.wf(),
            other.wf(),
        ensures
            r == lt_mag(self.mag(), other.mag()),
    {
        !mag_le(&other.v, &self.v)
    }

    /// Exact value equality on same-unit values.
    pub fn eq_val(&self, other: &Self) -> (r: bool)
        requires
            self.wf(),
            other.wf(),
        ensures
            r == eqv_mag(self.mag(), other.mag()),
    {
        mag_eq(&self.v, &other.v)
    }

    pub(crate) fn from_mag(m: Option<Rat>) -> (r: Self)
        requires
            mag_wf(m),
        ensures
            r.mag() == m,
            r.wf(),
    {
        MassRate { v: m, unit: PhantomData }
    }

    /// Mass rate times time is a mass; the time operand is converted into
    /// this value's time unit first.
    pub fn times_time<TB: TimeUnit>(&self, t: &Time<TB>) -> (r: Mass<M>)
        requires
            self.wf(),
            t.wf(),
        ensures
            r.wf(),
            r.mag() == spec_mul(
                self.mag(),
                spec_scale(t.mag(), TB::spec_ratio(), T::spec_ratio()),
            ),
    {
        let o = t.to::<T>();
        Mass::from_mag(mag_mul(&self.v, &o.magnitude()))
    }

    /// Lower into the dynamic engine: mass over time.
    pub fn as_dyn(&self) -> (r: DynamicUnits)
        requires
            self.wf(),
        ensures
            r.wf(),
            r.mag() == self.mag(),
            r.nums() == Multiset::<UnitId>::empty().insert(M::spec_id()),
            r.dens() == Multiset::<UnitId>::empty().insert(T::spec_id()),
    {
        DynamicUnits::new1o1::<M, T>(self.v)
    }
}
/// A density: mass per length cubed.
pub struct Density<M: MassUnit, L: LengthUnit> {
    v: Option<Rat>,
    unit: PhantomData<(M, L)>,
}

impl<M: MassUnit, L: LengthUnit> Density<M, L> {
    /// The magnitude, expressed in this type's own units.
    pub closed spec fn mag(self) -> Option<Rat> {
        self.v
    }

    pub open spec fn wf(self) -> bool {
        mag_wf(self.mag())
    }

    pub open spec fn finite(self) -> bool {
        self.mag() is Some
    }

    pub fn new(v: Rat) -> (r: Self)
        requires
            v.wf(),
        ensures
            r.mag() == Some(v),
            r.wf(),
    {
        Density { v: Some(v), unit: PhantomData }
    }

    pub fn from_int(v: i64) -> (r: Self)
        requires
            -MAG_LIMIT <= v as int,
        ensures
            r.wf(),
            r.mag() matches Some(q) && q.num == v as int && q.den == 1,
    {
        Density { v: Some(Rat::from_int(v)), unit: PhantomData }
    }

    /// The value no finite representation exists for; it propagates
    /// through arithmetic and sorts after every finite value.
    pub fn non_finite() -> (r: Self)
        ensures
            r.mag() is None,
            r.wf(),
    {
        Density { v: None, unit: PhantomData }
    }

    pub fn magnitude(&self) -> (r: Option<Rat>)
        ensures
            r == self.mag(),
    {
        self.v
    }

    pub fn is_finite(&self) -> (r: bool)
        ensures
            r == self.finite(),
    {
        self.v.is_some()
    }

    /// Exact conversion: the mass slot scales forward, the cubed length
    /// slot, being a divisor, scales inverted three times.
    pub fn to<MB: MassUnit, LB: LengthUnit>(&self) -> (r: Density<MB, LB>)
        requires
            self.wf(),
        ensures
            r.wf(),
            r.mag() == spec_scale(spec_scale(spec_scale(spec_scale(self.mag(), M::spec_ratio(), MB::spec_ratio()), LB::spec_ratio(), L::spec_ratio()), LB::spec_ratio(), L::spec_ratio()), LB::spec_ratio(), L::spec_ratio()),
    {
        proof {
            M::ratio_props();
            MB::ratio_props();
            L::ratio_props();
            LB::ratio_props();
        }
        let m = mag_scale(&self.v, &M::ratio(), &MB::ratio());
        let m = mag_scale(&m, &LB::ratio(), &L::ratio());
        let m = mag_scale(&m, &LB::ratio(), &L::ratio());
        let m = mag_scale(&m, &LB::ratio(), &L::ratio());
        Density { v: m, unit: PhantomData }
    }

    /// Sum: the right operand is converted into this value's units first,
    /// and the result is expressed in this value's units.
    pub fn add<MB: MassUnit, LB: LengthUnit>(&self, other: &Density<MB, LB>) -> (r: Self)
        requires
            self.wf(),
            other.wf(),
        ensures
            r.wf(),
            r.mag() == spec_add(self.mag(), spec_scale(spec_scale(spec_scale(spec_scale(other.mag(), MB::spec_ratio(), M::spec_ratio()), L::spec_ratio(), LB::spec_ratio()), L::spec_ratio(), LB::spec_ratio()), L::spec_ratio(), LB::spec_ratio())),
    {
        let o = other.to::<M, L>();
        Density { v: mag_add(&self.v, &o.v), unit: PhantomData }
    }

    /// Difference, with the same conversion rule as `add`.
    pub fn sub<MB: MassUnit, LB: LengthUnit>(&self, other: &Density<MB, LB>) -> (r: Self)
        requires
            self.wf(),
            other.wf(),
        ensures
            r.wf(),
            r.mag() == spec_sub(self.mag(), spec_scale(spec_scale(spec_scale(spec_scale(other.mag(), MB::spec_ratio(), M::spec_ratio()), L::spec_ratio(), LB::spec_ratio()), L::spec_ratio(), LB::spec_ratio()), L::spec_ratio(), LB::spec_ratio())),
    {
        let o = other.to::<M, L>();
        Density { v: mag_sub(&self.v, &o.v), unit: PhantomData }
    }

    pub fn neg(&self) -> (r: Self)
        requires
            self.wf(),
        ensures
            r.wf(),
            r.mag() == spec_neg(self.mag()),
    {
        Density { v: mag_neg(&self.v), unit: PhantomData }
    }

    /// Scaling by a dimensionless factor keeps the units unchanged.
    pub fn scale(&self, s: &Scalar) -> (r: Self)
        requires
            self.wf(),
            s.wf(),
        ensures
            r.wf(),
            r.mag() == spec_mul(self.mag(), s.mag()),
    {
        Density { v: mag_mul(&self.v, &s.magnitude()), unit: PhantomData }
    }

    pub fn div_scalar(&self, s: &Scalar) -> (r: Self)
        requires
            self.wf(),
            s.wf(),
        ensures
            r.wf(),
            r.mag() == spec_div(self.mag(), s.mag()),
    {
        Density { v: mag_div(&self.v, &s.magnitude()), unit: PhantomData }
    }

    /// Ratio of two same-family values: the divisor is converted into this
    /// value's units first, so the result is a pure number.
    pub fn div_same<MB: MassUnit, LB: LengthUnit>(&self, other: &Density<MB, LB>) -> (r: Scalar)
        requires
            self.wf(),
            other.wf(),
        ensures
            r.wf(),
            r.mag() == spec_div(self.mag(), spec_scale(spec_scale(spec_scale(spec_scale(other.mag(), MB::spec_ratio(), M::spec_ratio()), L::spec_ratio(), LB::spec_ratio()), L::spec_ratio(), LB::spec_ratio()), L::spec_ratio(), LB::spec_ratio())),
    {
        let o = other.to::<M, L>();
        Scalar::from_mag(mag_div(&self.v, &o.v))
    }

    /// Total order on same-unit values, the non-finite value greatest.
    pub fn le(&self, other: &Self) -> (r: bool)
        requires
            self.wf(),
            other.wf(),
        ensures
            r == le_mag(self.mag(), other.mag()),
    {
        mag_le(&self.v, &other.v)
    }

    pub fn lt(&self, other: &Self) -> (r: bool)
        requires
            self.wf(),
            other.wf(),
        ensures
            r == lt_mag(self.mag(), other.mag()),
    {
        !mag_le(&other.v, &self.v)
    }

    /// Exact value equality on same-unit values.
    pub fn eq_val(&self, other: &Self) -> (r: bool)
        requires
            self.wf(),
            other.wf(),
        ensures
            r == eqv_mag(self.mag(), other.mag()),
    {
        mag_eq(&self.v, &other.v)
    }

    pub(crate) fn from_mag(m: Option<Rat>) -> (r: Self)
        requires
            mag_wf(m),
        ensures
            r.mag() == m,
            r.wf(),
    {
        Density { v: m, unit: PhantomData }
    }

    /// Lower into the dynamic engine: mass over length three times.
    pub fn as_dyn(&self) -> (r: DynamicUnits)
        requires
            self.wf(),
        ensures
            r.wf(),
            r.mag() == self.mag(),
            r.nums() == Multiset::<UnitId>::empty().insert(M::spec_id()),
            r.dens() == Multiset::<UnitId>::empty().insert(L::spec_id()).insert(
                L::spec_id(),
            ).insert(L::spec_id()),
    {
        DynamicUnits::new1o3::<M, L, L, L>(self.v)
    }
}
/// A rotational inertia: mass times length squared.
pub struct RotationalInertia<M: MassUnit, L: LengthUnit> {
    v: Option<Rat>,
    unit: PhantomData<(M, L)>,
}

impl<M: MassUnit, L: LengthUnit> RotationalInertia<M, L> {
    /// The magnitude, expressed in this type's own units.
    pub closed spec fn mag(self) -> Option<Rat> {
        self.v
    }

    pub open spec fn wf(self) -> bool {
        mag_wf(self.mag())
    }

    pub open spec fn finite(self) -> bool {
        self.mag() is Some
    }

    pub fn new(v: Rat) -> (r: Self)
        requires
            v.wf(),
        ensures
            r.mag() == Some(v),
            r.wf(),
    {
        RotationalInertia { v: Some(v), unit: PhantomData }
    }

    pub fn from_int(v: i64) -> (r: Self)
        requires
            -MAG_LIMIT <= v as int,
        ensures
            r.wf(),
            r.mag() matches Some(q) && q.num == v as int && q.den == 1,
    {
        RotationalInertia { v: Some(Rat::from_int(v)), unit: PhantomData }
    }

    /// The value no finite representation exists for; it propagates
    /// through arithmetic and sorts after every finite value.
    pub fn non_finite() -> (r: Self)
        ensures
            r.mag() is None,
            r.wf(),
    {
        RotationalInertia { v: None, unit: PhantomData }
    }

    pub fn magnitude(&self) -> (r: Option<Rat>)
        ensures
            r == self.mag(),
    {
        self.v
    }

    pub fn is_finite(&self) -> (r: bool)
        ensures
            r == self.finite(),
    {
        self.v.is_some()
    }

    /// Exact conversion: the mass slot scales forward once and the squared
    /// length slot forward twice.
    pub fn to<MB: MassUnit, LB: LengthUnit>(&self) -> (r: RotationalInertia<MB, LB>)
        requires
            self.wf(),
        ensures
            r.wf(),
            r.mag() == spec_scale(spec_scale(spec_scale(self.mag(), M::spec_ratio(), MB::spec_ratio()), L::spec_ratio(), LB::spec_ratio()), L::spec_ratio(), LB::spec_ratio()),
    {
        proof {
            M::ratio_props();
            MB::ratio_props();
            L::ratio_props();
            LB::ratio_props();
        }
        let m = mag_scale(&self.v, &M::ratio(), &MB::ratio());
        let m = mag_scale(&m, &L::ratio(), &LB::ratio());
        let m = mag_scale(&m, &L::ratio(), &LB::ratio());
        RotationalInertia { v: m, unit: PhantomData }
    }

    /// Sum: the right operand is converted into this value's units first,
    /// and the result is expressed in this value's units.
    pub fn add<MB: MassUnit, LB: LengthUnit>(&self, other: &RotationalInertia<MB, LB>) -> (r: Self)
        requires
            self.wf(),
            other.wf(),
        ensures
            r.wf(),
            r.mag() == spec_add(self.mag(), spec_scale(spec_scale(spec_scale(other.mag(), MB::spec_ratio(), M::spec_ratio()), LB::spec_ratio(), L::spec_ratio()), LB::spec_ratio(), L::spec_ratio())),
    {
        let o = other.to::<M, L>();
        RotationalInertia { v: mag_add(&self.v, &o.v), unit: PhantomData }
    }

    /// Difference, with the same conversion rule as `add`.
    pub fn sub<MB: MassUnit, LB: LengthUnit>(&self, other: &RotationalInertia<MB, LB>) -> (r: Self)
        requires
            self.wf(),
            other.wf(),
        ensures
            r.wf(),
            r.mag() == spec_sub(self.mag(), spec_scale(spec_scale(spec_scale(other.mag(), MB::spec_ratio(), M::spec_ratio()), LB::spec_ratio(), L::spec_ratio()), LB::spec_ratio(), L::spec_ratio())),
    {
        let o = other.to::<M, L>();
        RotationalInertia { v: mag_sub(&self.v, &o.v), unit: PhantomData }
    }

    pub fn neg(&self) -> (r: Self)
        requires
            self.wf(),
        ensures
            r.wf(),
            r.mag() == spec_neg(self.mag()),
    {
        RotationalInertia { v: mag_neg(&self.v), unit: PhantomData }
    }

    /// Scaling by a dimensionless factor keeps the units unchanged.
    pub fn scale(&self, s: &Scalar) -> (r: Self)
        requires
            self.wf(),
            s.wf(),
        ensures
            r.wf(),
            r.mag() == spec_mul(self.mag(), s.mag()),
    {
        RotationalInertia { v: mag_mul(&self.v, &s.magnitude()), unit: PhantomData }
    }

    pub fn div_scalar(&self, s: &Scalar) -> (r: Self)
        requires
            self.wf(),
            s.wf(),
        ensures
            r.wf(),
            r.mag() == spec_div(self.mag(), s.mag()),
    {
        RotationalInertia { v: mag_div(&self.v, &s.magnitude()), unit: PhantomData }
    }

    /// Ratio of two same-family values: the divisor is converted into this
    /// value's units first, so the result is a pure number.
    pub fn div_same<MB: MassUnit, LB: LengthUnit>(&self, other: &RotationalInertia<MB, LB>) -> (r: Scalar)
        requires
            self.wf(),
            other.wf(),
        ensures
            r.wf(),
            r.mag() == spec_div(self.mag(), spec_scale(spec_scale(spec_scale(other.mag(), MB::spec_ratio(), M::spec_ratio()), LB::spec_ratio(), L::spec_ratio()), LB::spec_ratio(), L::spec_ratio())),
    {
        let o = other.to::<M, L>();
        Scalar::from_mag(mag_div(&self.v, &o.v))
    }

    /// Total order on same-unit values, the non-finite value greatest.
    pub fn le(&self, other: &Self) -> (r: bool)
        requires
            self.wf(),
            other.wf(),
        ensures
            r == le_mag(self.mag(), other.mag()),
    {
        mag_le(&self.v, &other.v)
    }

    pub fn lt(&self, other: &Self) -> (r: bool)
        requires
            self.wf(),
            other.wf(),
        ensures
            r == lt_mag(self.mag(), other.mag()),
    {
        !mag_le(&other.v, &self.v)
    }

    /// Exact value equality on same-unit values.
    pub fn eq_val(&self, other: &Self) -> (r: bool)
        requires
            self.wf(),
            other.wf(),
        ensures
            r == eqv_mag(self.mag(), other.mag()),
    {
        mag_eq(&self.v, &other.v)
    }

    pub(crate) fn from_mag(m: Option<Rat>) -> (r: Self)
        requires
            mag_wf(m),
        ensures
            r.mag() == m,
            r.wf(),
    {
        RotationalInertia { v: m, unit: PhantomData }
    }

    /// Lower into the dynamic engine: mass and length twice on top.
    pub fn as_dyn(&self) -> (r: DynamicUnits)
        requires
            self.wf(),
        ensures
            r.wf(),
            r.mag() == self.mag(),
            r.nums() == Multiset::<UnitId>::empty().insert(M::spec_id()).insert(
                L::spec_id(),
            ).insert(L::spec_id()),
            r.dens() == Multiset::<UnitId>::empty(),
    {
        DynamicUnits::new3o0::<M, L, L>(self.v)
    }
}

impl<M: MassUnit> Clone for Mass<M> {
    fn clone(&self) -> (r: Self)
        ensures
            r.mag() == self.mag(),
    {
        Mass { v: self.v, unit: PhantomData }
    }
}
impl<M: MassUnit, T: TimeUnit> Clone for MassRate<M, T> {
    fn clone(&self) -> (r: Self)
        ensures
            r.mag() == self.mag(),
    {
        MassRate { v: self.v, unit: PhantomData }
    }
}
impl<M: MassUnit, L: LengthUnit> Clone for Density<M, L> {
    fn clone(&self) -> (r: Self)
        ensures
            r.mag() == self.mag(),
    {
        Density { v: self.v, unit: PhantomData }
    }
}
impl<M: MassUnit, L: LengthUnit> Clone for RotationalInertia<M, L> {
    fn clone(&self) -> (r: Self)
        ensures
            r.mag() == self.mag(),
    {
        RotationalInertia { v: self.v, unit: PhantomData }
    }
}
} // verus!
