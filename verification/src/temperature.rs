use vstd::prelude::*;
use core::marker::PhantomData;
use crate::rational::{
    eqv_mag, le_mag, lt_mag, mag_add, mag_div, mag_eq, mag_le, mag_mul, mag_sub, mag_wf, spec_add,
    spec_div, spec_mul, spec_sub, Rat, MAG_LIMIT,
};
use crate::units::TemperatureUnit;

verus! {

/// A temperature expressed in the unit `U`. Temperature units map onto
/// kelvin by an affine rule, `kelvin == x * scale + offset`, so conversion
/// goes through kelvin rather than by a single ratio.
pub struct Temperature<U: TemperatureUnit> {
    v: Option<Rat>,
    unit: PhantomData<U>,
}

/// The kelvin value of a magnitude in a unit with the given affine rule.
pub open spec fn spec_to_kelvin(m: Option<Rat>, scale: Rat, offset: Rat) -> Option<Rat> {
    spec_add(spec_mul(m, Some(scale)), Some(offset))
}

/// The magnitude, in a unit with the given affine rule, of a kelvin value.
pub open spec fn spec_from_kelvin(k: Option<Rat>, scale: Rat, offset: Rat) -> Option<Rat> {
    spec_div(spec_sub(k, Some(offset)), Some(scale))
}

impl<U: TemperatureUnit> Temperature<U> {
    /// The magnitude, expressed in this type's own unit.
    pub closed spec fn mag(self) -> Option<Rat> {
        self.v
    }

    pub open spec fn wf(self) -> bool {
        mag_wf(self.mag())
    }

    pub open spec fn finite(self) -> bool {
        self.mag() is Some
    }

    pub fn new(v: Rat) -> (r: Self)
        requires
            v.wf(),
        ensures
            r.mag() == Some(v),
            r.wf(),
    {
        Temperature { v: Some(v), unit: PhantomData }
    }

    pub fn from_int(v: i64) -> (r: Self)
        requires
            -MAG_LIMIT <= v as int,
        ensures
            r.wf(),
            r.mag() matches Some(q) && q.num == v as int && q.den == 1,
    {
        Temperature { v: Some(Rat::from_int(v)), unit: PhantomData }
    }

    pub fn non_finite() -> (r: Self)
        ensures
            r.mag() is None,
            r.wf(),
    {
        Temperature { v: None, unit: PhantomData }
    }

    pub fn magnitude(&self) -> (r: Option<Rat>)
        ensures
            r == self.mag(),
    {
        self.v
    }

    pub fn is_finite(&self) -> (r: bool)
        ensures
            r == self.finite(),
    {
        self.v.is_some()
    }

    /// The value in kelvin, by this unit's affine rule.
    pub fn to_kelvin(&self) -> (r: Option<Rat>)
        requires
            self.wf(),
        ensures
            mag_wf(r),
            r == spec_to_kelvin(self.mag(), U::spec_scale(), U::spec_offset()),
    {
        proof {
            U::scale_props();
        }
        let scaled = mag_mul(&self.v, &Some(U::scale()));
        mag_add(&scaled, &Some(U::offset()))
    }

    /// Exact conversion into another temperature unit, through kelvin.
    pub fn to<UB: TemperatureUnit>(&self) -> (r: Temperature<UB>)
        requires
            self.wf(),
        ensures
            r.wf(),
            r.mag() == spec_from_kelvin(
                spec_to_kelvin(self.mag(), U::spec_scale(), U::spec_offset()),
                UB::spec_scale(),
                UB::spec_offset(),
            ),
    {
        proof {
            U::scale_props();
            UB::scale_props();
        }
        let k = self.to_kelvin();
        let shifted = mag_sub(&k, &Some(UB::offset()));
        Temperature { v: mag_div(&shifted, &Some(UB::scale())), unit: PhantomData }
    }

    /// Total order on same-unit values, the non-finite value greatest.
    pub fn le(&self, other: &Self) -> (r: bool)
        requires
            self.wf(),
            other.wf(),
        ensures
            r == le_mag(self.mag(), other.mag()),
    {
        mag_le(&self.v, &other.v)
    }

    pub fn lt(&self, other: &Self) -> (r: bool)
        requires
            self.wf(),
            other.wf(),
        ensures
            r == lt_mag(self.mag(), other.mag()),
    {
        !mag_le(&other.v, &self.v)
    }

    /// Exact value equality on same-unit values.
    pub fn eq_val(&self, other: &Self) -> (r: bool)
        requires
            self.wf(),
            other.wf(),
        ensures
            r == eqv_mag(self.mag(), other.mag()),
    {
        mag_eq(&self.v, &other.v)
    }
}

impl<U: TemperatureUnit> Clone for Temperature<U> {
    fn clone(&self) -> (r: Self)
        ensures
            r.mag() == self.mag(),
    {
        Temperature { v: self.v, unit: PhantomData }
    }
}

} // verus!
