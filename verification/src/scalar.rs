use vstd::prelude::*;
use vstd::multiset::Multiset;
use crate::dynamic::DynamicUnits;
use crate::rational::{
    eqv_mag, le_mag, lt_mag, mag_add, mag_div, mag_eq, mag_le, mag_mul, mag_neg, mag_sub, mag_wf,
    spec_add, spec_div, spec_mul, spec_neg, spec_sub, Rat, MAG_LIMIT,
};

verus! {

/// A dimensionless quantity: the result of cancelling a ratio of same
/// family quantities, and the multiplier every quantity can be scaled by.
#[derive(Clone, Copy)]
pub struct Scalar {
    v: Option<Rat>,
}

impl Scalar {
    /// The magnitude: a finite exact rational, or `None` when a
    /// computation left the representable range.
    pub closed spec fn mag(self) -> Option<Rat> {
        self.v
    }

    pub open spec fn wf(self) -> bool {
        mag_wf(self.mag())
    }

    pub open spec fn finite(self) -> bool {
        self.mag() is Some
    }

    pub fn new(v: Rat) -> (r: Scalar)
        requires
            v.wf(),
        ensures
            r.mag() == Some(v),
            r.wf(),
    {
        Scalar { v: Some(v) }
    }

    pub fn from_int(v: i64) -> (r: Scalar)
        requires
            -MAG_LIMIT <= v as int,
        ensures
            r.wf(),
            r.mag() matches Some(q) && q.num == v as int && q.den == 1,
    {
        Scalar { v: Some(Rat::from_int(v)) }
    }

    /// The value no finite representation exists for; it propagates
    /// through arithmetic and sorts after every finite value.
    pub fn non_finite() -> (r: Scalar)
        ensures
            r.mag() is None,
            r.wf(),
    {
        Scalar { v: None }
    }

    pub(crate) fn from_mag(m: Option<Rat>) -> (r: Scalar)
        requires
            mag_wf(m),
        ensures
            r.mag() == m,
            r.wf(),
    {
        Scalar { v: m }
    }

    pub fn magnitude(&self) -> (r: Option<Rat>)
        ensures
            r == self.mag(),
    {
        self.v
    }

    pub fn is_finite(&self) -> (r: bool)
        ensures
            r == self.finite(),
    {
        self.v.is_some()
    }

    pub fn add(&self, other: &Scalar) -> (r: Scalar)
        requires
            self.wf(),
            other.wf(),
        ensures
            r.wf(),
            r.mag() == spec_add(self.mag(), other.mag()),
    {
        Scalar { v: mag_add(&self.v, &other.v) }
    }

    pub fn sub(&self, other: &Scalar) -> (r: Scalar)
        requires
            self.wf(),
            other.wf(),
        ensures
            r.wf(),
            r.mag() == spec_sub(self.mag(), other.mag()),
    {
        Scalar { v: mag_sub(&self.v, &other.v) }
    }

    pub fn mul(&self, other: &Scalar) -> (r: Scalar)
        requires
            self.wf(),
            other.wf(),
        ensures
            r.wf(),
            r.mag() == spec_mul(self.mag(), other.mag()),
    {
        Scalar { v: mag_mul(&self.v, &other.v) }
    }

    pub fn div(&self, other: &Scalar) -> (r: Scalar)
        requires
            self.wf(),
            other.wf(),
        ensures
            r.wf(),
            r.mag() == spec_div(self.mag(), other.mag()),
    {
        Scalar { v: mag_div(&self.v, &other.v) }
    }

    pub fn neg(&self) -> (r: Scalar)
        requires
            self.wf(),
        ensures
            r.wf(),
            r.mag() == spec_neg(self.mag()),
    {
        Scalar { v: mag_neg(&self.v) }
    }

    pub fn abs(&self) -> (r: Scalar)
        requires
            self.wf(),
        ensures
            r.wf(),
            r.mag() matches Some(q) <==> self.mag() is Some,
            self.mag() matches Some(m) ==> r.mag() matches Some(q) && q.num == crate::rational::iabs(
                m.num as int,
            ) && q.den == m.den,
    {
        match &self.v {
            Some(x) => Scalar { v: Some(x.abs()) },
            None => Scalar { v: None },
        }
    }

    /// Total order with the non-finite value greatest.
    pub fn le(&self, other: &Scalar) -> (r: bool)
        requires
            self.wf(),
            other.wf(),
        ensures
            r == le_mag(self.mag(), other.mag()),
    {
        mag_le(&self.v, &other.v)
    }

    pub fn lt(&self, other: &Scalar) -> (r: bool)
        requires
            self.wf(),
            other.wf(),
        ensures
            r == lt_mag(self.mag(), other.mag()),
    {
        !mag_le(&other.v, &self.v)
    }

    /// Exact value equality.
    pub fn eq_val(&self, other: &Scalar) -> (r: bool)
        requires
            self.wf(),
            other.wf(),
        ensures
            r == eqv_mag(self.mag(), other.mag()),
    {
        mag_eq(&self.v, &other.v)
    }

    /// Lower into the dynamic engine: no unit identities at all.
    pub fn as_dyn(&self) -> (r: DynamicUnits)
        requires
            self.wf(),
        ensures
            r.wf(),
            r.mag() == self.mag(),
            r.nums() == Multiset::<crate::units::UnitId>::empty(),
            r.dens() == Multiset::<crate::units::UnitId>::empty(),
    {
        DynamicUnits::new0o0(self.v)
    }

    /// Raise a dynamic chain back to a dimensionless scalar: succeeds
    /// exactly when the chain's signature cancels away completely.
    pub fn try_from_dyn(d: &DynamicUnits) -> (r: Option<Scalar>)
        requires
            d.wf(),
        ensures
            r is Some <==> d.units_empty(),
            r matches Some(s) ==> s.wf() && s.mag() == d.mag(),
    {
        if d.units_are_empty() {
            Some(Scalar { v: d.magnitude() })
        } else {
            None
        }
    }
}

} // verus!
