use vstd::prelude::*;
use vstd::multiset::Multiset;
use core::marker::PhantomData;
use crate::dynamic::DynamicUnits;
use crate::rational::{
    eqv_mag, iabs, le_mag, lt_mag, mag_add, mag_div, mag_eq, mag_le, mag_mul, mag_neg, mag_sub,
    mag_scale, mag_wf, spec_add, spec_div, spec_mul, spec_neg, spec_scale, spec_sub, Rat, MAG_LIMIT,
};
use crate::scalar::Scalar;
use crate::time::Time;
use crate::units::{LengthUnit, TimeUnit, Unit, UnitId};
use crate::velocity::Velocity;

verus! {
/// A distance expressed in the length unit `U`. The magnitude is stored
/// in `U`'s own unit, never pre-converted to a base unit.
pub struct Length<U: LengthUnit> {
    v: Option<Rat>,
    unit: PhantomData<U>,
}

impl<U: LengthUnit> Length<U> {
    /// The magnitude, expressed in this type's own units.
    pub closed spec fn mag(self) -> Option<Rat> {
        self.v
    }

    pub open spec fn wf(self) -> bool {
        mag_wf(self.mag())
    }

    pub open spec fn finite(self) -> bool {
        self.mag() is Some
    }

    pub fn new(v: Rat) -> (r: Self)
        requires
            v.wf(),
        ensures
            r.mag() == Some(v),
            r.wf(),
    {
        Length { v: Some(v), unit: PhantomData }
    }

    pub fn from_int(v: i64) -> (r: Self)
        requires
            -MAG_LIMIT <= v as int,
        ensures
            r.wf(),
            r.mag() matches Some(q) && q.num == v as int && q.den == 1,
    {
        Length { v: Some(Rat::from_int(v)), unit: PhantomData }
    }

    /// The value no finite representation exists for; it propagates
    /// through arithmetic and sorts after every finite value.
    pub fn non_finite() -> (r: Self)
        ensures
            r.mag() is None,
            r.wf(),
    {
        Length { v: None, unit: PhantomData }
    }

    pub fn magnitude(&self) -> (r: Option<Rat>)
        ensures
            r == self.mag(),
    {
        self.v
    }

    pub fn is_finite(&self) -> (r: bool)
        ensures
            r == self.finite(),
    {
        self.v.is_some()
    }

    /// Exact conversion into another length unit: multiply by the ratio of
    /// the two units' meters-per-unit constants.
    pub fn to<UB: LengthUnit>(&self) -> (r: Length<UB>)
        requires
            self.wf(),
        ensures
            r.wf(),
            r.mag() == spec_scale(self.mag(), U::spec_ratio(), UB::spec_ratio()),
    {
        proof {
            U::ratio_props();
            UB::ratio_props();
        }
        let m = mag_scale(&self.v, &U::ratio(), &UB::ratio());
        Length { v: m, unit: PhantomData }
    }

    /// Sum: the right operand is converted into this value's units first,
    /// and the result is expressed in this value's units.
    pub fn add<UB: LengthUnit>(&self, other: &Length<UB>) -> (r: Self)
        requires
            self.wf(),
            other.wf(),
        ensures
            r.wf(),
            r.mag() == spec_add(self.mag(), spec_scale(other.mag(), UB::spec_ratio(), U::spec_ratio())),
    {
        let o = other.to::<U>();
        Length { v: mag_add(&self.v, &o.v), unit: PhantomData }
    }

    /// Difference, with the same conversion rule as `add`.
    pub fn sub<UB: LengthUnit>(&self, other: &Length<UB>) -> (r: Self)
        requires
            self.wf(),
            other.wf(),
        ensures
            r.wf(),
            r.mag() == spec_sub(self.mag(), spec_scale(other.mag(), UB::spec_ratio(), U::spec_ratio())),
    {
        let o = other.to::<U>();
        Length { v: mag_sub(&self.v, &o.v), unit: PhantomData }
    }

    pub fn neg(&self) -> (r: Self)
        requires
            self.wf(),
        ensures
            r.wf(),
            r.mag() == spec_neg(self.mag()),
    {
        Length { v: mag_neg(&self.v), unit: PhantomData }
    }

    /// Scaling by a dimensionless factor keeps the units unchanged.
    pub fn scale(&self, s: &Scalar) -> (r: Self)
        requires
            self.wf(),
            s.wf(),
        ensures
            r.wf(),
            r.mag() == spec_mul(self.mag(), s.mag()),
    {
        Length { v: mag_mul(&self.v, &s.magnitude()), unit: PhantomData }
    }

    pub fn div_scalar(&self, s: &Scalar) -> (r: Self)
        requires
            self.wf(),
            s.wf(),
        ensures
            r.wf(),
            r.mag() == spec_div(self.mag(), s.mag()),
    {
        Length { v: mag_div(&self.v, &s.magnitude()), unit: PhantomData }
    }

    /// Ratio of two same-family values: the divisor is converted into this
    /// value's units first, so the result is a pure number.
    pub fn div_same<UB: LengthUnit>(&self, other: &Length<UB>) -> (r: Scalar)
        requires
            self.wf(),
            other.wf(),
        ensures
            r.wf(),
            r.mag() == spec_div(self.mag(), spec_scale(other.mag(), UB::spec_ratio(), U::spec_ratio())),
    {
        let o = other.to::<U>();
        Scalar::from_mag(mag_div(&self.v, &o.v))
    }

    /// Total order on same-unit values, the non-finite value greatest.
    pub fn le(&self, other: &Self) -> (r: bool)
        requires
            self.wf(),
            other.wf(),
        ensures
            r == le_mag(self.mag(), other.mag()),
    {
        mag_le(&self.v, &other.v)
    }

    pub fn lt(&self, other: &Self) -> (r: bool)
        requires
            self.wf(),
            other.wf(),
        ensures
            r == lt_mag(self.mag(), other.mag()),
    {
        !mag_le(&other.v, &self.v)
    }

    /// Exact value equality on same-unit values.
    pub fn eq_val(&self, other: &Self) -> (r: bool)
        requires
            self.wf(),
            other.wf(),
        ensures
            r == eqv_mag(self.mag(), other.mag()),
    {
        mag_eq(&self.v, &other.v)
    }

    pub(crate) fn from_mag(m: Option<Rat>) -> (r: Self)
        requires
            mag_wf(m),
        ensures
            r.mag() == m,
            r.wf(),
    {
        Length { v: m, unit: PhantomData }
    }

    pub fn abs(&self) -> (r: Self)
        requires
            self.wf(),
        ensures
            r.wf(),
            r.finite() == self.finite(),
            self.mag() matches Some(m) ==> r.mag() matches Some(q) && q.num == iabs(m.num as int)
                && q.den == m.den,
    {
        match &self.v {
            Some(x) => Length { v: Some(x.abs()), unit: PhantomData },
            None => Length { v: None, unit: PhantomData },
        }
    }

    /// The sign of the magnitude as a dimensionless value: -1, 0 or 1,
    /// and the non-finite value for a non-finite length.
    pub fn signum(&self) -> (r: Scalar)
        requires
            self.wf(),
        ensures
            r.wf(),
            self.mag() matches Some(m) ==> r.mag() matches Some(q) && q.den == 1 && q.num == (
            if m.num > 0 {
                1int
            } else if m.num < 0 {
                -1int
            } else {
                0int
            }),
            self.mag() is None ==> r.mag() is None,
    {
        match &self.v {
            Some(x) => {
                if x.num > 0 {
                    Scalar::from_int(1)
                } else if x.num < 0 {
                    Scalar::from_int(-1)
                } else {
                    Scalar::from_int(0)
                }
            },
            None => Scalar::non_finite(),
        }
    }

    /// Length times length is an area, expressed in this value's unit.
    pub fn times<UB: LengthUnit>(&self, other: &Length<UB>) -> (r: Area<U>)
        requires
            self.wf(),
            other.wf(),
        ensures
            r.wf(),
            r.mag() == spec_mul(
                self.mag(),
                spec_scale(other.mag(), UB::spec_ratio(), U::spec_ratio()),
            ),
    {
        let o = other.to::<U>();
        Area { v: mag_mul(&self.v, &o.magnitude()), unit: PhantomData }
    }

    /// Length over time is a velocity; the divisor keeps its own unit.
    pub fn per_time<T: TimeUnit>(&self, t: &Time<T>) -> (r: Velocity<U, T>)
        requires
            self.wf(),
            t.wf(),
        ensures
            r.wf(),
            r.mag() == spec_div(self.mag(), t.mag()),
    {
        Velocity::from_mag(mag_div(&self.v, &t.magnitude()))
    }

    /// Lower into the dynamic engine: one numerator identity.
    pub fn as_dyn(&self) -> (r: DynamicUnits)
        requires
            self.wf(),
        ensures
            r.wf(),
            r.mag() == self.mag(),
            r.nums() == Multiset::<UnitId>::empty().insert(U::spec_id()),
            r.dens() == Multiset::<UnitId>::empty(),
    {
        DynamicUnits::new1o0::<U>(self.v)
    }
}
/// An area: length squared, expressed in the length unit `U` twice.
pub struct Area<U: LengthUnit> {
    v: Option<Rat>,
    unit: PhantomData<U>,
}

impl<U: LengthUnit> Area<U> {
    /// The magnitude, expressed in this type's own units.
    pub closed spec fn mag(self) -> Option<Rat> {
        self.v
    }

    pub open spec fn wf(self) -> bool {
        mag_wf(self.mag())
    }

    pub open spec fn finite(self) -> bool {
        self.mag() is Some
    }

    pub fn new(v: Rat) -> (r: Self)
        requires
            v.wf(),
        ensures
            r.mag() == Some(v),
            r.wf(),
    {
        Area { v: Some(v), unit: PhantomData }
    }

    pub fn from_int(v: i64) -> (r: Self)
        requires
            -MAG_LIMIT <= v as int,
        ensures
            r.wf(),
            r.mag() matches Some(q) && q.num == v as int && q.den == 1,
    {
        Area { v: Some(Rat::from_int(v)), unit: PhantomData }
    }

    /// The value no finite representation exists for; it propagates
    /// through arithmetic and sorts after every finite value.
    pub fn non_finite() -> (r: Self)
        ensures
            r.mag() is None,
            r.wf(),
    {
        Area { v: None, unit: PhantomData }
    }

    pub fn magnitude(&self) -> (r: Option<Rat>)
        ensures
            r == self.mag(),
    {
        self.v
    }

    pub fn is_finite(&self) -> (r: bool)
        ensures
            r == self.finite(),
    {
        self.v.is_some()
    }

    /// Exact conversion into another length unit: the ratio applies once
    /// per length slot, so twice.
    pub fn to<UB: LengthUnit>(&self) -> (r: Area<UB>)
        requires
            self.wf(),
        ensures
            r.wf(),
            r.mag() == spec_scale(spec_scale(self.mag(), U::spec_ratio(), UB::spec_ratio()), U::spec_ratio(), UB::spec_ratio()),
    {
        proof {
            U::ratio_props();
            UB::ratio_props();
        }
        let m = mag_scale(&self.v, &U::ratio(), &UB::ratio());
        let m = mag_scale(&m, &U::ratio(), &UB::ratio());
        Area { v: m, unit: PhantomData }
    }

    /// Sum: the right operand is converted into this value's units first,
    /// and the result is expressed in this value's units.
    pub fn add<UB: LengthUnit>(&self, other: &Area<UB>) -> (r: Self)
        requires
            self.wf(),
            other.wf(),
        ensures
            r.wf(),
            r.mag() == spec_add(self.mag(), spec_scale(spec_scale(other.mag(), UB::spec_ratio(), U::spec_ratio()), UB::spec_ratio(), U::spec_ratio())),
    {
        let o = other.to::<U>();
        Area { v: mag_add(&self.v, &o.v), unit: PhantomData }
    }

    /// Difference, with the same conversion rule as `add`.
    pub fn sub<UB: LengthUnit>(&self, other: &Area<UB>) -> (r: Self)
        requires
            self.wf(),
            other.wf(),
        ensures
            r.wf(),
            r.mag() == spec_sub(self.mag(), spec_scale(spec_scale(other.mag(), UB::spec_ratio(), U::spec_ratio()), UB::spec_ratio(), U::spec_ratio())),
    {
        let o = other.to::<U>();
        Area { v: mag_sub(&self.v, &o.v), unit: PhantomData }
    }

    pub fn neg(&self) -> (r: Self)
        requires
            self.wf(),
        ensures
            r.wf(),
            r.mag() == spec_neg(self.mag()),
    {
        Area { v: mag_neg(&self.v), unit: PhantomData }
    }

    /// Scaling by a dimensionless factor keeps the units unchanged.
    pub fn scale(&self, s: &Scalar) -> (r: Self)
        requires
            self.wf(),
            s.wf(),
        ensures
            r.wf(),
            r.mag() == spec_mul(self.mag(), s.mag()),
    {
        Area { v: mag_mul(&self.v, &s.magnitude()), unit: PhantomData }
    }

    pub fn div_scalar(&self, s: &Scalar) -> (r: Self)
        requires
            self.wf(),
            s.wf(),
        ensures
            r.wf(),
            r.mag() == spec_div(self.mag(), s.mag()),
    {
        Area { v: mag_div(&self.v, &s.magnitude()), unit: PhantomData }
    }

    /// Ratio of two same-family values: the divisor is converted into this
    /// value's units first, so the result is a pure number.
    pub fn div_same<UB: LengthUnit>(&self, other: &Area<UB>) -> (r: Scalar)
        requires
            self.wf(),
            other.wf(),
        ensures
            r.wf(),
            r.mag() == spec_div(self.mag(), spec_scale(spec_scale(other.mag(), UB::spec_ratio(), U::spec_ratio()), UB::spec_ratio(), U::spec_ratio())),
    {
        let o = other.to::<U>();
        Scalar::from_mag(mag_div(&self.v, &o.v))
    }

    /// Total order on same-unit values, the non-finite value greatest.
    pub fn le(&self, other: &Self) -> (r: bool)
        requires
            self.wf(),
            other.wf(),
        ensures
            r == le_mag(self.mag(), other.mag()),
    {
        mag_le(&self.v, &other.v)
    }

    pub fn lt(&self, other: &Self) -> (r: bool)
        requires
            self.wf(),
            other.wf(),
        ensures
            r == lt_mag(self.mag(), other.mag()),
    {
        !mag_le(&other.v, &self.v)
    }

    /// Exact value equality on same-unit values.
    pub fn eq_val(&self, other: &Self) -> (r: bool)
        requires
            self.wf(),
            other.wf(),
        ensures
            r == eqv_mag(self.mag(), other.mag()),
    {
        mag_eq(&self.v, &other.v)
    }

    pub(crate) fn from_mag(m: Option<Rat>) -> (r: Self)
        requires
            mag_wf(m),
        ensures
            r.mag() == m,
            r.wf(),
    {
        Area { v: m, unit: PhantomData }
    }

    /// Area times length is a volume, expressed in this value's unit.
    pub fn times_length<UB: LengthUnit>(&self, other: &Length<UB>) -> (r: Volume<U>)
        requires
            self.wf(),
            other.wf(),
        ensures
            r.wf(),
            r.mag() == spec_mul(
                self.mag(),
                spec_scale(other.mag(), UB::spec_ratio(), U::spec_ratio()),
            ),
    {
        let o = other.to::<U>();
        Volume { v: mag_mul(&self.v, &o.magnitude()), unit: PhantomData }
    }

    /// Lower into the dynamic engine: the length identity twice.
    pub fn as_dyn(&self) -> (r: DynamicUnits)
        requires
            self.wf(),
        ensures
            r.wf(),
            r.mag() == self.mag(),
            r.nums() == Multiset::<UnitId>::empty().insert(U::spec_id()).insert(U::spec_id()),
            r.dens() == Multiset::<UnitId>::empty(),
    {
        DynamicUnits::new2o0::<U, U>(self.v)
    }
}
/// A volume: length cubed, expressed in the length unit `U` three times.
pub struct Volume<U: LengthUnit> {
    v: Option<Rat>,
    unit: PhantomData<U>,
}

impl<U: LengthUnit> Volume<U> {
    /// The magnitude, expressed in this type's own units.
    pub closed spec fn mag(self) -> Option<Rat> {
        self.v
    }

    pub open spec fn wf(self) -> bool {
        mag_wf(self.mag())
    }

    pub open spec fn finite(self) -> bool {
        self.mag() is Some
    }

    pub fn new(v: Rat) -> (r: Self)
        requires
            v.wf(),
        ensures
            r.mag() == Some(v),
            r.wf(),
    {
        Volume { v: Some(v), unit: PhantomData }
    }

    pub fn from_int(v: i64) -> (r: Self)
        requires
            -MAG_LIMIT <= v as int,
        ensures
            r.wf(),
            r.mag() matches Some(q) && q.num == v as int && q.den == 1,
    {
        Volume { v: Some(Rat::from_int(v)), unit: PhantomData }
    }

    /// The value no finite representation exists for; it propagates
    /// through arithmetic and sorts after every finite value.
    pub fn non_finite() -> (r: Self)
        ensures
            r.mag() is None,
            r.wf(),
    {
        Volume { v: None, unit: PhantomData }
    }

    pub fn magnitude(&self) -> (r: Option<Rat>)
        ensures
            r == self.mag(),
    {
        self.v
    }

    pub fn is_finite(&self) -> (r: bool)
        ensures
            r == self.finite(),
    {
        self.v.is_some()
    }

    /// Exact conversion into another length unit: the ratio applies once
    /// per length slot, so three times.
    pub fn to<UB: LengthUnit>(&self) -> (r: Volume<UB>)
        requires
            self.wf(),
        ensures
            r.wf(),
            r.mag() == spec_scale(spec_scale(spec_scale(self.mag(), U::spec_ratio(), UB::spec_ratio()), U::spec_ratio(), UB::spec_ratio()), U::spec_ratio(), UB::spec_ratio()),
    {
        proof {
            U::ratio_props();
            UB::ratio_props();
        }
        let m = mag_scale(&self.v, &U::ratio(), &UB::ratio());
        let m = mag_scale(&m, &U::ratio(), &UB::ratio());
        let m = mag_scale(&m, &U::ratio(), &UB::ratio());
        Volume { v: m, unit: PhantomData }
    }

    /// Sum: the right operand is converted into this value's units first,
    /// and the result is expressed in this value's units.
    pub fn add<UB: LengthUnit>(&self, other: &Volume<UB>) -> (r: Self)
        requires
            self.wf(),
            other.wf(),
        ensures
            r.wf(),
            r.mag() == spec_add(self.mag(), spec_scale(spec_scale(spec_scale(other.mag(), UB::spec_ratio(), U::spec_ratio()), UB::spec_ratio(), U::spec_ratio()), UB::spec_ratio(), U::spec_ratio())),
    {
        let o = other.to::<U>();
        Volume { v: mag_add(&self.v, &o.v), unit: PhantomData }
    }

    /// Difference, with the same conversion rule as `add`.
    pub fn sub<UB: LengthUnit>(&self, other: &Volume<UB>) -> (r: Self)
        requires
            self.wf(),
            other.wf(),
        ensures
            r.wf(),
            r.mag() == spec_sub(self.mag(), spec_scale(spec_scale(spec_scale(other.mag(), UB::spec_ratio(), U::spec_ratio()), UB::spec_ratio(), U::spec_ratio()), UB::spec_ratio(), U::spec_ratio())),
    {
        let o = other.to::<U>();
        Volume { v: mag_sub(&self.v, &o.v), unit: PhantomData }
    }

    pub fn neg(&self) -> (r: Self)
        requires
            self.wf(),
        ensures
            r.wf(),
            r.mag() == spec_neg(self.mag()),
    {
        Volume { v: mag_neg(&self.v), unit: PhantomData }
    }

    /// Scaling by a dimensionless factor keeps the units unchanged.
    pub fn scale(&self, s: &Scalar) -> (r: Self)
        requires
            self.wf(),
            s.wf(),
        ensures
            r.wf(),
            r.mag() == spec_mul(self.mag(), s.mag()),
    {
        Volume { v: mag_mul(&self.v, &s.magnitude()), unit: PhantomData }
    }

    pub fn div_scalar(&self, s: &Scalar) -> (r: Self)
        requires
            self.wf(),
            s.wf(),
        ensures
            r.wf(),
            r.mag() == spec_div(self.mag(), s.mag()),
    {
        Volume { v: mag_div(&self.v, &s.magnitude()), unit: PhantomData }
    }

    /// Ratio of two same-family values: the divisor is converted into this
    /// value's units first, so the result is a pure number.
    pub fn div_same<UB: LengthUnit>(&self, other: &Volume<UB>) -> (r: Scalar)
        requires
            self.wf(),
            other.wf(),
        ensures
            r.wf(),
            r.mag() == spec_div(self.mag(), spec_scale(spec_scale(spec_scale(other.mag(), UB::spec_ratio(), U::spec_ratio()), UB::spec_ratio(), U::spec_ratio()), UB::spec_ratio(), U::spec_ratio())),
    {
        let o = other.to::<U>();
        Scalar::from_mag(mag_div(&self.v, &o.v))
    }

    /// Total order on same-unit values, the non-finite value greatest.
    pub fn le(&self, other: &Self) -> (r: bool)
        requires
            self.wf(),
            other.wf(),
        ensures
            r == le_mag(self.mag(), other.mag()),
    {
        mag_le(&self.v, &other.v)
    }

    pub fn lt(&self, other: &Self) -> (r: bool)
        requires
            self.wf(),
            other.wf(),
        ensures
            r == lt_mag(self.mag(), other.mag()),
    {
        !mag_le(&other.v, &self.v)
    }

    /// Exact value equality on same-unit values.
    pub fn eq_val(&self, other: &Self) -> (r: bool)
        requires
            self.wf(),
            other.wf(),
        ensures
            r == eqv_mag(self.mag(), other.mag()),
    {
        mag_eq(&self.v, &other.v)
    }

    pub(crate) fn from_mag(m: Option<Rat>) -> (r: Self)
        requires
            mag_wf(m),
        ensures
            r.mag() == m,
            r.wf(),
    {
        Volume { v: m, unit: PhantomData }
    }

    /// Lower into the dynamic engine: the length identity three times.
    pub fn as_dyn(&self) -> (r: DynamicUnits)
        requires
            self.wf(),
        ensures
            r.wf(),
            r.mag() == self.mag(),
            r.nums() == Multiset::<UnitId>::empty().insert(U::spec_id()).insert(
                U::spec_id(),
            ).insert(U::spec_id()),
            r.dens() == Multiset::<UnitId>::empty(),
    {
        DynamicUnits::new3o0::<U, U, U>(self.v)
    }
}

impl<U: LengthUnit> Clone for Length<U> {
    fn clone(&self) -> (r: Self)
        ensures
            r.mag() == self.mag(),
    {
        Length { v: self.v, unit: PhantomData }
    }
}

impl<U: LengthUnit> Clone for Area<U> {
    fn clone(&self) -> (r: Self)
        ensures
            r.mag() == self.mag(),
    {
        Area { v: self.v, unit: PhantomData }
    }
}

impl<U: LengthUnit> Clone for Volume<U> {
    fn clone(&self) -> (r: Self)
        ensures
            r.mag() == self.mag(),
    {
        Volume { v: self.v, unit: PhantomData }
    }
}

} // verus!
