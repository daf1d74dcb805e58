use vstd::prelude::*;
use core::marker::PhantomData;
use crate::rational::{
    eqv_mag, le_mag, lt_mag, mag_add, mag_div, mag_eq, mag_le, mag_mul, mag_neg, mag_scale,
    mag_sub, mag_wf, spec_add, spec_div, spec_mul, spec_neg, spec_scale, spec_sub, Rat, MAG_LIMIT,
};
use crate::scalar::Scalar;
use crate::units::PressureUnit;

verus! {
/// A pressure expressed in the pressure unit `P`.
pub struct Pressure<P: PressureUnit> {
    v: Option<Rat>,
    unit: PhantomData<P>,
}

impl<P: PressureUnit> Pressure<P> {
    /// The magnitude, expressed in this type's own units.
    pub closed spec fn mag(self) -> Option<Rat> {
        self.v
    }

    pub open spec fn wf(self) -> bool {
        mag_wf(self.mag())
    }

    pub open spec fn finite(self) -> bool {
        self.mag() is Some
    }

    pub fn new(v: Rat) -> (r: Self)
        requires
            v.wf(),
        ensures
            r.mag() == Some(v),
            r.wf(),
    {
        Pressure { v: Some(v), unit: PhantomData }
    }

    pub fn from_int(v: i64) -> (r: Self)
        requires
            -MAG_LIMIT <= v as int,
        ensures
            r.wf(),
            r.mag() matches Some(q) && q.num == v as int && q.den == 1,
    {
        Pressure { v: Some(Rat::from_int(v)), unit: PhantomData }
    }

    /// The value no finite representation exists for; it propagates
    /// through arithmetic and sorts after every finite value.
    pub fn non_finite() -> (r: Self)
        ensures
            r.mag() is None,
            r.wf(),
    {
        Pressure { v: None, unit: PhantomData }
    }

    pub fn magnitude(&self) -> (r: Option<Rat>)
        ensures
            r == self.mag(),
    {
        self.v
    }

    pub fn is_finite(&self) -> (r: bool)
        ensures
            r == self.finite(),
    {
        self.v.is_some()
    }

    /// Exact conversion into another pressure unit.
    pub fn to<PB: PressureUnit>(&self) -> (r: Pressure<PB>)
        requires
            self.wf(),
        ensures
            r.wf(),
            r.mag() == spec_scale(self.mag(), P::spec_ratio(), PB::spec_ratio()),
    {
        proof {
            P::ratio_props();
            PB::ratio_props();
        }
        let m = mag_scale(&self.v, &P::ratio(), &PB::ratio());
        Pressure { v: m, unit: PhantomData }
    }

    /// Sum: the right operand is converted into this value's units first,
    /// and the result is expressed in this value's units.
    pub fn add<PB: PressureUnit>(&self, other: &Pressure<PB>) -> (r: Self)
        requires
            self.wf(),
            other.wf(),
        ensures
            r.wf(),
            r.mag() == spec_add(self.mag(), spec_scale(other.mag(), PB::spec_ratio(), P::spec_ratio())),
    {
        let o = other.to::<P>();
        Pressure { v: mag_add(&self.v, &o.v), unit: PhantomData }
    }

    /// Difference, with the same conversion rule as `add`.
    pub fn sub<PB: PressureUnit>(&self, other: &Pressure<PB>) -> (r: Self)
        requires
            self.wf(),
            other.wf(),
        ensures
            r.wf(),
            r.mag() == spec_sub(self.mag(), spec_scale(other.mag(), PB::spec_ratio(), P::spec_ratio())),
    {
        let o = other.to::<P>();
        Pressure { v: mag_sub(&self.v, &o.v), unit: PhantomData }
    }

    pub fn neg(&self) -> (r: Self)
        requires
            self.wf(),
        ensures
            r.wf(),
            r.mag() == spec_neg(self.mag()),
    {
        Pressure { v: mag_neg(&self.v), unit: PhantomData }
    }

    /// Scaling by a dimensionless factor keeps the units unchanged.
    pub fn scale(&self, s: &Scalar) -> (r: Self)
        requires
            self.wf(),
            s.wf(),
        ensures
            r.wf(),
            r.mag() == spec_mul(self.mag(), s.mag()),
    {
        Pressure { v: mag_mul(&self.v, &s.magnitude()), unit: PhantomData }
    }

    pub fn div_scalar(&self, s: &Scalar) -> (r: Self)
        requires
            self.wf(),
            s.wf(),
        ensures
            r.wf(),
            r.mag() == spec_div(self.mag(), s.mag()),
    {
        Pressure { v: mag_div(&self.v, &s.magnitude()), unit: PhantomData }
    }

    /// Ratio of two same-family values: the divisor is converted into this
    /// value's units first, so the result is a pure number.
    pub fn div_same<PB: PressureUnit>(&self, other: &Pressure<PB>) -> (r: Scalar)
        requires
            self.wf(),
            other.wf(),
        ensures
            r.wf(),
            r.mag() == spec_div(self.mag(), spec_scale(other.mag(), PB::spec_ratio(), P::spec_ratio())),
    {
        let o = other.to::<P>();
        Scalar::from_mag(mag_div(&self.v, &o.v))
    }

    /// Total order on same-unit values, the non-finite value greatest.
    pub fn le(&self, other: &Self) -> (r: bool)
        requires
            self.wf(),
            other.wf(),
        ensures
            r == le_mag(self.mag(), other.mag()),
    {
        mag_le(&self.v, &other.v)
    }

    pub fn lt(&self, other: &Self) -> (r: bool)
        requires
            self.wf(),
            other.wf(),
        ensures
            r == lt_mag(self.mag(), other.mag()),
    {
        !mag_le(&other.v, &self.v)
    }

    /// Exact value equality on same-unit values.
    pub fn eq_val(&self, other: &Self) -> (r: bool)
        requires
            self.wf(),
            other.wf(),
        ensures
            r == eqv_mag(self.mag(), other.mag()),
    {
        mag_eq(&self.v, &other.v)
    }

    pub(crate) fn from_mag(m: Option<Rat>) -> (r: Self)
        requires
            mag_wf(m),
        ensures
            r.mag() == m,
            r.wf(),
    {
        Pressure { v: m, unit: PhantomData }
    }
}

impl<P: PressureUnit> Clone for Pressure<P> {
    fn clone(&self) -> (r: Self)
        ensures
            r.mag() == self.mag(),
    {
        Pressure { v: self.v, unit: PhantomData }
    }
}
} // verus!
