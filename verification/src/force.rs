use vstd::prelude::*;
use vstd::multiset::Multiset;
use core::marker::PhantomData;
use crate::dynamic::DynamicUnits;
use crate::rational::{
    eqv_mag, le_mag, lt_mag, mag_add, mag_div, mag_eq, mag_le, mag_mul, mag_neg, mag_scale,
    mag_sub, mag_wf, spec_add, spec_div, spec_mul, spec_neg, spec_scale, spec_sub, Rat, MAG_LIMIT,
};
use crate::scalar::Scalar;
use crate::length::Length;
use crate::units::{ForceUnit, LengthUnit, Unit, UnitId};

verus! {
/// A force expressed in the force unit `F`. Each force unit fixes the
/// mass, length and time units it decomposes into inside the dynamic
/// signature engine.
pub struct Force<F: ForceUnit> {
    v: Option<Rat>,
    unit: PhantomData<F>,
}

impl<F: ForceUnit> Force<F> {
    /// The magnitude, expressed in this type's own units.
    pub closed spec fn mag(self) -> Option<Rat> {
        self.v
    }

    pub open spec fn wf(self) -> bool {
        mag_wf(self.mag())
    }

    pub open spec fn finite(self) -> bool {
        self.mag() is Some
    }

    pub fn new(v: Rat) -> (r: Self)
        requires
            v.wf(),
        ensures
            r.mag() == Some(v),
            r.wf(),
    {
        Force { v: Some(v), unit: PhantomData }
    }

    pub fn from_int(v: i64) -> (r: Self)
        requires
            -MAG_LIMIT <= v as int,
        ensures
            r.wf(),
            r.mag() matches Some(q) && q.num == v as int && q.den == 1,
    {
        Force { v: Some(Rat::from_int(v)), unit: PhantomData }
    }

    /// The value no finite representation exists for; it propagates
    /// through arithmetic and sorts after every finite value.
    pub fn non_finite() -> (r: Self)
        ensures
            r.mag() is None,
            r.wf(),
    {
        Force { v: None, unit: PhantomData }
    }

    pub fn magnitude(&self) -> (r: Option<Rat>)
        ensures
            r == self.mag(),
    {
        self.v
    }

    pub fn is_finite(&self) -> (r: bool)
        ensures
            r == self.finite(),
    {
        self.v.is_some()
    }

    /// Exact conversion into another force unit.
    pub fn to<FB: ForceUnit>(&self) -> (r: Force<FB>)
        requires
            self.wf(),
        ensures
            r.wf(),
            r.mag() == spec_scale(self.mag(), F::spec_ratio(), FB::spec_ratio()),
    {
        proof {
            F::ratio_props();
            FB::ratio_props();
        }
        let m = mag_scale(&self.v, &F::ratio(), &FB::ratio());
        Force { v: m, unit: PhantomData }
    }

    /// Sum: the right operand is converted into this value's units first,
    /// and the result is expressed in this value's units.
    pub fn add<FB: ForceUnit>(&self, other: &Force<FB>) -> (r: Self)
        requires
            self.wf(),
            other.wf(),
        ensures
            r.wf(),
            r.mag() == spec_add(self.mag(), spec_scale(other.mag(), FB::spec_ratio(), F::spec_ratio())),
    {
        let o = other.to::<F>();
        Force { v: mag_add(&self.v, &o.v), unit: PhantomData }
    }

    /// Difference, with the same conversion rule as `add`.
    pub fn sub<FB: ForceUnit>(&self, other: &Force<FB>) -> (r: Self)
        requires
            self.wf(),
            other.wf(),
        ensures
            r.wf(),
            r.mag() == spec_sub(self.mag(), spec_scale(other.mag(), FB::spec_ratio(), F::spec_ratio())),
    {
        let o = other.to::<F>();
        Force { v: mag_sub(&self.v, &o.v), unit: PhantomData }
    }

    pub fn neg(&self) -> (r: Self)
        requires
            self.wf(),
        ensures
            r.wf(),
            r.mag() == spec_neg(self.mag()),
    {
        Force { v: mag_neg(&self.v), unit: PhantomData }
    }

    /// Scaling by a dimensionless factor keeps the units unchanged.
    pub fn scale(&self, s: &Scalar) -> (r: Self)
        requires
            self.wf(),
            s.wf(),
        ensures
            r.wf(),
            r.mag() == spec_mul(self.mag(), s.mag()),
    {
        Force { v: mag_mul(&self.v, &s.magnitude()), unit: PhantomData }
    }

    pub fn div_scalar(&self, s: &Scalar) -> (r: Self)
        requires
            self.wf(),
            s.wf(),
        ensures
            r.wf(),
            r.mag() == spec_div(self.mag(), s.mag()),
    {
        Force { v: mag_div(&self.v, &s.magnitude()), unit: PhantomData }
    }

    /// Ratio of two same-family values: the divisor is converted into this
    /// value's units first, so the result is a pure number.
    pub fn div_same<FB: ForceUnit>(&self, other: &Force<FB>) -> (r: Scalar)
        requires
            self.wf(),
            other.wf(),
        ensures
            r.wf(),
            r.mag() == spec_div(self.mag(), spec_scale(other.mag(), FB::spec_ratio(), F::spec_ratio())),
    {
        let o = other.to::<F>();
        Scalar::from_mag(mag_div(&self.v, &o.v))
    }

    /// Total order on same-unit values, the non-finite value greatest.
    pub fn le(&self, other: &Self) -> (r: bool)
        requires
            self.wf(),
            other.wf(),
        ensures
            r == le_mag(self.mag(), other.mag()),
    {
        mag_le(&self.v, &other.v)
    }

    pub fn lt(&self, other: &Self) -> (r: bool)
        requires
            self.wf(),
            other.wf(),
        ensures
            r == lt_mag(self.mag(), other.mag()),
    {
        !mag_le(&other.v, &self.v)
    }

    /// Exact value equality on same-unit values.
    pub fn eq_val(&self, other: &Self) -> (r: bool)
        requires
            self.wf(),
            other.wf(),
        ensures
            r == eqv_mag(self.mag(), other.mag()),
    {
        mag_eq(&self.v, &other.v)
    }

    pub(crate) fn from_mag(m: Option<Rat>) -> (r: Self)
        requires
            mag_wf(m),
        ensures
            r.mag() == m,
            r.wf(),
    {
        Force { v: m, unit: PhantomData }
    }

    /// Force times length is a torque, in the operands' units.
    pub fn times_length<L: LengthUnit>(&self, l: &Length<L>) -> (r: Torque<F, L>)
        requires
            self.wf(),
            l.wf(),
        ensures
            r.wf(),
            r.mag() == spec_mul(self.mag(), l.mag()),
    {
        Torque { v: mag_mul(&self.v, &l.magnitude()), unit: PhantomData }
    }

    /// Lower into the dynamic engine as mass times length over time
    /// squared, in the units this force unit is defined from.
    pub fn as_dyn(&self) -> (r: DynamicUnits)
        requires
            self.wf(),
        ensures
            r.wf(),
            r.mag() == self.mag(),
            r.nums() == Multiset::<UnitId>::empty().insert(F::UnitMass::spec_id()).insert(
                F::UnitLength::spec_id(),
            ),
            r.dens() == Multiset::<UnitId>::empty().insert(F::UnitTime::spec_id()).insert(
                F::UnitTime::spec_id(),
            ),
    {
        DynamicUnits::new2o2::<F::UnitMass, F::UnitLength, F::UnitTime, F::UnitTime>(self.v)
    }

    /// Raise a dynamic chain to a force: succeeds exactly when the
    /// chain's signature reduces to mass times length over time squared,
    /// in the units this force unit is defined from.
    pub fn try_from_dyn(d: &DynamicUnits) -> (r: Option<Self>)
        requires
            d.wf(),
        ensures
            r is Some <==> d.sig_match(
                Multiset::<UnitId>::empty().insert(F::UnitMass::spec_id()).insert(
                    F::UnitLength::spec_id(),
                ),
                Multiset::<UnitId>::empty().insert(F::UnitTime::spec_id()).insert(
                    F::UnitTime::spec_id(),
                ),
            ),
            r matches Some(q) ==> q.wf() && q.mag() == d.mag(),
    {
        let target = DynamicUnits::new2o2::<F::UnitMass, F::UnitLength, F::UnitTime, F::UnitTime>(
            None,
        );
        if d.units_equal(&target) {
            Some(Force { v: d.magnitude(), unit: PhantomData })
        } else {
            None
        }
    }
}
/// A torque: force times length.
pub struct Torque<F: ForceUnit, L: LengthUnit> {
    v: Option<Rat>,
    unit: PhantomData<(F, L)>,
}

impl<F: ForceUnit, L: LengthUnit> Torque<F, L> {
    /// The magnitude, expressed in this type's own units.
    pub closed spec fn mag(self) -> Option<Rat> {
        self.v
    }

    pub open spec fn wf(self) -> bool {
        mag_wf(self.mag())
    }

    pub open spec fn finite(self) -> bool {
        self.mag() is Some
    }

    pub fn new(v: Rat) -> (r: Self)
        requires
            v.wf(),
        ensures
            r.mag() == Some(v),
            r.wf(),
    {
        Torque { v: Some(v), unit: PhantomData }
    }

    pub fn from_int(v: i64) -> (r: Self)
        requires
            -MAG_LIMIT <= v as int,
        ensures
            r.wf(),
            r.mag() matches Some(q) && q.num == v as int && q.den == 1,
    {
        Torque { v: Some(Rat::from_int(v)), unit: PhantomData }
    }

    /// The value no finite representation exists for; it propagates
    /// through arithmetic and sorts after every finite value.
    pub fn non_finite() -> (r: Self)
        ensures
            r.mag() is None,
            r.wf(),
    {
        Torque { v: None, unit: PhantomData }
    }

    pub fn magnitude(&self) -> (r: Option<Rat>)
        ensures
            r == self.mag(),
    {
        self.v
    }

    pub fn is_finite(&self) -> (r: bool)
        ensures
            r == self.finite(),
    {
        self.v.is_some()
    }

    /// Exact conversion: both the force and the length slot scale forward.
    pub fn to<FB: ForceUnit, LB: LengthUnit>(&self) -> (r: Torque<FB, LB>)
        requires
            self.wf(),
        ensures
            r.wf(),
            r.mag() == spec_scale(spec_scale(self.mag(), F::spec_ratio(), FB::spec_ratio()), L::spec_ratio(), LB::spec_ratio()),
    {
        proof {
            F::ratio_props();
            FB::ratio_props();
            L::ratio_props();
            LB::ratio_props();
        }
        let m = mag_scale(&self.v, &F::ratio(), &FB::ratio());
        let m = mag_scale(&m, &L::ratio(), &LB::ratio());
        Torque { v: m, unit: PhantomData }
    }

    /// Sum: the right operand is converted into this value's units first,
    /// and the result is expressed in this value's units.
    pub fn add<FB: ForceUnit, LB: LengthUnit>(&self, other: &Torque<FB, LB>) -> (r: Self)
        requires
            self.wf(),
            other.wf(),
        ensures
            r.wf(),
            r.mag() == spec_add(self.mag(), spec_scale(spec_scale(other.mag(), FB::spec_ratio(), F::spec_ratio()), LB::spec_ratio(), L::spec_ratio())),
    {
        let o = other.to::<F, L>();
        Torque { v: mag_add(&self.v, &o.v), unit: PhantomData }
    }

    /// Difference, with the same conversion rule as `add`.
    pub fn sub<FB: ForceUnit, LB: LengthUnit>(&self, other: &Torque<FB, LB>) -> (r: Self)
        requires
            self.wf(),
            other.wf(),
        ensures
            r.wf(),
            r.mag() == spec_sub(self.mag(), spec_scale(spec_scale(other.mag(), FB::spec_ratio(), F::spec_ratio()), LB::spec_ratio(), L::spec_ratio())),
    {
        let o = other.to::<F, L>();
        Torque { v: mag_sub(&self.v, &o.v), unit: PhantomData }
    }

    pub fn neg(&self) -> (r: Self)
        requires
            self.wf(),
        ensures
            r.wf(),
            r.mag() == spec_neg(self.mag()),
    {
        Torque { v: mag_neg(&self.v), unit: PhantomData }
    }

    /// Scaling by a dimensionless factor keeps the units unchanged.
    pub fn scale(&self, s: &Scalar) -> (r: Self)
        requires
            self.wf(),
            s.wf(),
        ensures
            r.wf(),
            r.mag() == spec_mul(self.mag(), s.mag()),
    {
        Torque { v: mag_mul(&self.v, &s.magnitude()), unit: PhantomData }
    }

    pub fn div_scalar(&self, s: &Scalar) -> (r: Self)
        requires
            self.wf(),
            s.wf(),
        ensures
            r.wf(),
            r.mag() == spec_div(self.mag(), s.mag()),
    {
        Torque { v: mag_div(&self.v, &s.magnitude()), unit: PhantomData }
    }

    /// Ratio of two same-family values: the divisor is converted into this
    /// value's units first, so the result is a pure number.
    pub fn div_same<FB: ForceUnit, LB: LengthUnit>(&self, other: &Torque<FB, LB>) -> (r: Scalar)
        requires
            self.wf(),
            other.wf(),
        ensures
            r.wf(),
            r.mag() == spec_div(self.mag(), spec_scale(spec_scale(other.mag(), FB::spec_ratio(), F::spec_ratio()), LB::spec_ratio(), L::spec_ratio())),
    {
        let o = other.to::<F, L>();
        Scalar::from_mag(mag_div(&self.v, &o.v))
    }

    /// Total order on same-unit values, the non-finite value greatest.
    pub fn le(&self, other: &Self) -> (r: bool)
        requires
            self.wf(),
            other.wf(),
        ensures
            r == le_mag(self.mag(), other.mag()),
    {
        mag_le(&self.v, &other.v)
    }

    pub fn lt(&self, other: &Self) -> (r: bool)
        requires
            self.wf(),
            other.wf(),
        ensures
            r == lt_mag(self.mag(), other.mag()),
    {
        !mag_le(&other.v, &self.v)
    }

    /// Exact value equality on same-unit values.
    pub fn eq_val(&self, other: &Self) -> (r: bool)
        requires
            self.wf(),
            other.wf(),
        ensures
            r == eqv_mag(self.mag(), other.mag()),
    {
        mag_eq(&self.v, &other.v)
    }

    pub(crate) fn from_mag(m: Option<Rat>) -> (r: Self)
        requires
            mag_wf(m),
        ensures
            r.mag() == m,
            r.wf(),
    {
        Torque { v: m, unit: PhantomData }
    }

    /// Lower into the dynamic engine: the force's mass, its length, and
    /// the torque arm's length on top; the force's time twice below.
    pub fn as_dyn(&self) -> (r: DynamicUnits)
        requires
            self.wf(),
        ensures
            r.wf(),
            r.mag() == self.mag(),
            r.nums() == Multiset::<UnitId>::empty().insert(F::UnitMass::spec_id()).insert(
                F::UnitLength::spec_id(),
            ).insert(L::spec_id()),
            r.dens() == Multiset::<UnitId>::empty().insert(F::UnitTime::spec_id()).insert(
                F::UnitTime::spec_id(),
            ),
    {
        DynamicUnits::new3o2::<F::UnitMass, F::UnitLength, L, F::UnitTime, F::UnitTime>(self.v)
    }

    /// Raise a dynamic chain to a torque: succeeds exactly when the
    /// chain's signature reduces to this type's signature.
    pub fn try_from_dyn(d: &DynamicUnits) -> (r: Option<Self>)
        requires
            d.wf(),
        ensures
            r is Some <==> d.sig_match(
                Multiset::<UnitId>::empty().insert(F::UnitMass::spec_id()).insert(
                    F::UnitLength::spec_id(),
                ).insert(L::spec_id()),
                Multiset::<UnitId>::empty().insert(F::UnitTime::spec_id()).insert(
                    F::UnitTime::spec_id(),
                ),
            ),
            r matches Some(q) ==> q.wf() && q.mag() == d.mag(),
    {
        let target = DynamicUnits::new3o2::<
            F::UnitMass,
            F::UnitLength,
            L,
            F::UnitTime,
            F::UnitTime,
        >(None);
        if d.units_equal(&target) {
            Some(Torque { v: d.magnitude(), unit: PhantomData })
        } else {
            None
        }
    }
}

impl<F: ForceUnit> Clone for Force<F> {
    fn clone(&self) -> (r: Self)
        ensures
            r.mag() == self.mag(),
    {
        Force { v: self.v, unit: PhantomData }
    }
}
impl<F: ForceUnit, L: LengthUnit> Clone for Torque<F, L> {
    fn clone(&self) -> (r: Self)
        ensures
            r.mag() == self.mag(),
    {
        Torque { v: self.v, unit: PhantomData }
    }
}
} // verus!
