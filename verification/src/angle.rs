use vstd::prelude::*;
use vstd::multiset::Multiset;
use core::marker::PhantomData;
use crate::dynamic::DynamicUnits;
use crate::rational::{
    eqv_mag, eqv_pair, euclid_mod, iabs, le_mag, le_pair, lt_mag, lt_pair, mag_add, mag_div, mag_eq, mag_le,
    mag_mul, mag_neg, mag_scale, mag_sub, mag_wf, norm, norm_pair, spec_add, spec_div, spec_mul,
    spec_neg, spec_scale, spec_sub, spec_tdiv, spec_trunc, trunc_div, Rat, MAG_LIMIT,
};
use crate::scalar::Scalar;
use crate::units::{AngleUnit, ArcSeconds, Unit, UnitId};

verus! {
/// An angle expressed in the angle unit `U`: degrees, arcminutes or
/// arcseconds, which convert into one another exactly. Radian values are
/// an irrational multiple of these and live outside the exact algebra.
pub struct Angle<U: AngleUnit> {
    v: Option<Rat>,
    unit: PhantomData<U>,
}

impl<U: AngleUnit> Angle<U> {
    /// The magnitude, expressed in this type's own units.
    pub closed spec fn mag(self) -> Option<Rat> {
        self.v
    }

    pub open spec fn wf(self) -> bool {
        mag_wf(self.mag())
    }

    pub open spec fn finite(self) -> bool {
        self.mag() is Some
    }

    pub fn new(v: Rat) -> (r: Self)
        requires
            v.wf(),
        ensures
            r.mag() == Some(v),
            r.wf(),
    {
        Angle { v: Some(v), unit: PhantomData }
    }

    pub fn from_int(v: i64) -> (r: Self)
        requires
            -MAG_LIMIT <= v as int,
        ensures
            r.wf(),
            r.mag() matches Some(q) && q.num == v as int && q.den == 1,
    {
        Angle { v: Some(Rat::from_int(v)), unit: PhantomData }
    }

    /// The value no finite representation exists for; it propagates
    /// through arithmetic and sorts after every finite value.
    pub fn non_finite() -> (r: Self)
        ensures
            r.mag() is None,
            r.wf(),
    {
        Angle { v: None, unit: PhantomData }
    }

    pub fn magnitude(&self) -> (r: Option<Rat>)
        ensures
            r == self.mag(),
    {
        self.v
    }

    pub fn is_finite(&self) -> (r: bool)
        ensures
            r == self.finite(),
    {
        self.v.is_some()
    }

    /// Exact conversion into another angle unit.
    pub fn to<UB: AngleUnit>(&self) -> (r: Angle<UB>)
        requires
            self.wf(),
        ensures
            r.wf(),
            r.mag() == spec_scale(self.mag(), U::spec_ratio(), UB::spec_ratio()),
    {
        proof {
            U::ratio_props();
            UB::ratio_props();
        }
        let m = mag_scale(&self.v, &U::ratio(), &UB::ratio());
        Angle { v: m, unit: PhantomData }
    }

    /// Sum: the right operand is converted into this value's units first,
    /// and the result is expressed in this value's units.
    pub fn add<UB: AngleUnit>(&self, other: &Angle<UB>) -> (r: Self)
        requires
            self.wf(),
            other.wf(),
        ensures
            r.wf(),
            r.mag() == spec_add(self.mag(), spec_scale(other.mag(), UB::spec_ratio(), U::spec_ratio())),
    {
        let o = other.to::<U>();
        Angle { v: mag_add(&self.v, &o.v), unit: PhantomData }
    }

    /// Difference, with the same conversion rule as `add`.
    pub fn sub<UB: AngleUnit>(&self, other: &Angle<UB>) -> (r: Self)
        requires
            self.wf(),
            other.wf(),
        ensures
            r.wf(),
            r.mag() == spec_sub(self.mag(), spec_scale(other.mag(), UB::spec_ratio(), U::spec_ratio())),
    {
        let o = other.to::<U>();
        Angle { v: mag_sub(&self.v, &o.v), unit: PhantomData }
    }

    pub fn neg(&self) -> (r: Self)
        requires
            self.wf(),
        ensures
            r.wf(),
            r.mag() == spec_neg(self.mag()),
    {
        Angle { v: mag_neg(&self.v), unit: PhantomData }
    }

    /// Scaling by a dimensionless factor keeps the units unchanged.
    pub fn scale(&self, s: &Scalar) -> (r: Self)
        requires
            self.wf(),
            s.wf(),
        ensures
            r.wf(),
            r.mag() == spec_mul(self.mag(), s.mag()),
    {
        Angle { v: mag_mul(&self.v, &s.magnitude()), unit: PhantomData }
    }

    pub fn div_scalar(&self, s: &Scalar) -> (r: Self)
        requires
            self.wf(),
            s.wf(),
        ensures
            r.wf(),
            r.mag() == spec_div(self.mag(), s.mag()),
    {
        Angle { v: mag_div(&self.v, &s.magnitude()), unit: PhantomData }
    }

    /// Ratio of two same-family values: the divisor is converted into this
    /// value's units first, so the result is a pure number.
    pub fn div_same<UB: AngleUnit>(&self, other: &Angle<UB>) -> (r: Scalar)
        requires
            self.wf(),
            other.wf(),
        ensures
            r.wf(),
            r.mag() == spec_div(self.mag(), spec_scale(other.mag(), UB::spec_ratio(), U::spec_ratio())),
    {
        let o = other.to::<U>();
        Scalar::from_mag(mag_div(&self.v, &o.v))
    }

    /// Total order on same-unit values, the non-finite value greatest.
    pub fn le(&self, other: &Self) -> (r: bool)
        requires
            self.wf(),
            other.wf(),
        ensures
            r == le_mag(self.mag(), other.mag()),
    {
        mag_le(&self.v, &other.v)
    }

    pub fn lt(&self, other: &Self) -> (r: bool)
        requires
            self.wf(),
            other.wf(),
        ensures
            r == lt_mag(self.mag(), other.mag()),
    {
        !mag_le(&other.v, &self.v)
    }

    /// Exact value equality on same-unit values.
    pub fn eq_val(&self, other: &Self) -> (r: bool)
        requires
            self.wf(),
            other.wf(),
        ensures
            r == eqv_mag(self.mag(), other.mag()),
    {
        mag_eq(&self.v, &other.v)
    }

    pub(crate) fn from_mag(m: Option<Rat>) -> (r: Self)
        requires
            mag_wf(m),
        ensures
            r.mag() == m,
            r.wf(),
    {
        Angle { v: m, unit: PhantomData }
    }

    pub fn abs(&self) -> (r: Self)
        requires
            self.wf(),
        ensures
            r.wf(),
            r.finite() == self.finite(),
            self.mag() matches Some(m) ==> r.mag() matches Some(q) && q.num == iabs(m.num as int)
                && q.den == m.den,
    {
        match &self.v {
            Some(x) => Angle { v: Some(x.abs()), unit: PhantomData },
            None => Angle { v: None, unit: PhantomData },
        }
    }

    /// The sign of the angle: -1, 0 or 1; 0 also for the non-finite value.
    pub fn sign(&self) -> (r: i8)
        requires
            self.wf(),
        ensures
            self.mag() matches Some(m) ==> r == (if m.num > 0 {
                1int
            } else if m.num < 0 {
                -1int
            } else {
                0int
            }),
            self.mag() is None ==> r == 0,
    {
        match &self.v {
            Some(x) => {
                if x.num > 0 {
                    1
                } else if x.num < 0 {
                    -1
                } else {
                    0
                }
            },
            None => 0,
        }
    }

    /// Clamp into the closed interval `[min, max]` of the total order.
    pub fn clamp(&self, min: &Self, max: &Self) -> (r: Self)
        requires
            self.wf(),
            min.wf(),
            max.wf(),
        ensures
            r.wf(),
            lt_mag(self.mag(), min.mag()) ==> r.mag() == min.mag(),
            !lt_mag(self.mag(), min.mag()) && lt_mag(max.mag(), self.mag()) ==> r.mag()
                == max.mag(),
            !lt_mag(self.mag(), min.mag()) && !lt_mag(max.mag(), self.mag()) ==> r.mag()
                == self.mag(),
    {
        if !mag_le(&min.v, &self.v) {
            Angle { v: min.v, unit: PhantomData }
        } else if !mag_le(&self.v, &max.v) {
            Angle { v: max.v, unit: PhantomData }
        } else {
            Angle { v: self.v, unit: PhantomData }
        }
    }

    /// Normalize into the half-open interval `(min, max]` by shifting by
    /// a whole number of interval widths. A value already inside the
    /// interval is returned unchanged; otherwise the result is `max` less
    /// the remainder of `max - self` modulo the width, computed exactly.
    pub fn wrap(&self, min: &Self, max: &Self) -> (r: Self)
        requires
            self.wf(),
            min.wf(),
            max.wf(),
            self.finite(),
            min.finite(),
            max.finite(),
            lt_mag(min.mag(), max.mag()),
        ensures
            r.wf(),
            r.mag() == spec_wrap(self.mag(), min.mag(), max.mag()),
            (lt_mag(min.mag(), self.mag()) && le_mag(self.mag(), max.mag())) ==> r.mag()
                == self.mag(),
    {
        if !mag_le(&self.v, &min.v) && mag_le(&self.v, &max.v) {
            return Angle { v: self.v, unit: PhantomData };
        }
        let w = mag_sub(&max.v, &min.v);
        let q = mag_sub(&max.v, &self.v);
        match (w, q) {
            (Some(wv), Some(qv)) => {
                proof {
                    crate::laws::lemma_norm_pair(
                        max.mag()->0.num * min.mag()->0.den - min.mag()->0.num * max.mag()->0.den,
                        max.mag()->0.den * min.mag()->0.den,
                    );
                    lemma_width_pos(max.mag()->0, min.mag()->0, wv);
                    crate::rational::lemma_prod_bound(qv.num as int, wv.den as int);
                    crate::rational::lemma_prod_bound(qv.den as int, wv.num as int);
                    crate::rational::lemma_prod_bound(qv.den as int, wv.den as int);
                    assert(qv.den as int * wv.num as int > 0) by (nonlinear_arith)
                        requires
                            qv.den > 0,
                            wv.num > 0,
                    {}
                    assert(qv.den as int * wv.den as int > 0) by (nonlinear_arith)
                        requires
                            qv.den > 0,
                            wv.den > 0,
                    {}
                    vstd::arithmetic::div_mod::lemma_mod_bound(
                        qv.num as int * wv.den as int,
                        qv.den as int * wv.num as int,
                    );
                }
                let md = euclid_mod(qv.num * wv.den, qv.den * wv.num);
                let m = norm(md, qv.den * wv.den);
                Angle { v: mag_sub(&max.v, &m), unit: PhantomData }
            },
            _ => Angle { v: None, unit: PhantomData },
        }
    }

    /// Split into whole degrees, minutes and seconds, each truncated
    /// toward zero, from the exact value in arcseconds.
    pub fn split_degrees_minutes_seconds(&self) -> (r: (i32, i32, i32))
        requires
            self.wf(),
            spec_scale(self.mag(), U::spec_ratio(), ArcSeconds::spec_ratio()) is Some,
            ({
                let total = spec_trunc(
                    spec_scale(self.mag(), U::spec_ratio(), ArcSeconds::spec_ratio())->0,
                );
                -0x8000_0000 <= spec_tdiv(total, 3600) < 0x8000_0000
            }),
        ensures
            ({
                let total = spec_trunc(
                    spec_scale(self.mag(), U::spec_ratio(), ArcSeconds::spec_ratio())->0,
                );
                let d = spec_tdiv(total, 3600);
                let rem = total - 3600 * d;
                let m = spec_tdiv(rem, 60);
                r == (d as i32, m as i32, (rem - 60 * m) as i32)
            }),
    {
        let sec = self.to::<ArcSeconds>();
        let secs = sec.magnitude();
        let total: i128 = match secs {
            Some(x) => x.trunc(),
            None => 0,  // excluded by the precondition
        };
        let d = trunc_div(total, 3600);
        proof {
            lemma_tdiv_rem(total as int, 3600);
        }
        let rem = total - 3600 * d;
        let m = trunc_div(rem, 60);
        proof {
            lemma_tdiv_rem(rem as int, 60);
        }
        let s = rem - 60 * m;
        (d as i32, m as i32, s as i32)
    }


    /// The magnitude of the angle's absolute value.
    pub open spec fn abs_mag(self) -> Option<Rat> {
        match self.mag() {
            Some(m) => if m.num >= 0 {
                Some(m)
            } else {
                spec_neg(self.mag())
            },
            None => None,
        }
    }

    /// Whether the absolute value splits into degrees under one thousand:
    /// what the fixed-width renderers below require.
    pub open spec fn splits_small(self) -> bool {
        &&& self.mag() is Some
        &&& spec_scale(self.abs_mag(), U::spec_ratio(), ArcSeconds::spec_ratio()) is Some
        &&& 0 <= spec_trunc(
            spec_scale(self.abs_mag(), U::spec_ratio(), ArcSeconds::spec_ratio())->0,
        ) < 3600000
    }

    /// The degrees, minutes and seconds of the absolute value, packed for
    /// the renderers below.
    pub open spec fn spec_dms(self) -> (int, int, int) {
        let total = spec_trunc(
            spec_scale(self.abs_mag(), U::spec_ratio(), ArcSeconds::spec_ratio())->0,
        );
        let d = total / 3600;
        let rem = total - 3600 * d;
        (d, rem / 60, rem - 60 * (rem / 60))
    }

    /// Fixed-width latitude text: `N` or `S`, then the absolute value's
    /// degrees, minutes and seconds, zero-padded.
    pub fn format_latitude(&self) -> (r: String)
        requires
            self.wf(),
            self.splits_small(),
        ensures
            r@ =~= spec_format_dms(
                if self.mag()->0.num >= 0 {
                    'N'
                } else {
                    'S'
                },
                self.spec_dms().0,
                self.spec_dms().1,
                self.spec_dms().2,
            ),
    {
        let hemi: &'static str = if self.is_negative() {
            "S"
        } else {
            "N"
        };
        proof {
            reveal_strlit("N");
            reveal_strlit("S");
        }
        self.format_dms_of_abs(hemi)
    }

    /// Fixed-width longitude text: `E` or `W`, then the absolute value's
    /// degrees, minutes and seconds, zero-padded.
    pub fn format_longitude(&self) -> (r: String)
        requires
            self.wf(),
            self.splits_small(),
        ensures
            r@ =~= spec_format_dms(
                if self.mag()->0.num >= 0 {
                    'E'
                } else {
                    'W'
                },
                self.spec_dms().0,
                self.spec_dms().1,
                self.spec_dms().2,
            ),
    {
        let hemi: &'static str = if self.is_negative() {
            "W"
        } else {
            "E"
        };
        proof {
            reveal_strlit("E");
            reveal_strlit("W");
        }
        self.format_dms_of_abs(hemi)
    }

    fn is_negative(&self) -> (r: bool)
        requires
            self.wf(),
            self.finite(),
        ensures
            r == (self.mag()->0.num < 0),
    {
        match &self.v {
            Some(x) => x.num < 0,
            None => false,
        }
    }

    /// Shared body of the two renderers: split the absolute value and
    /// render it after the given hemisphere letter.
    fn format_dms_of_abs(&self, hemi: &'static str) -> (r: String)
        requires
            self.wf(),
            self.splits_small(),
            hemi@.len() == 1,
        ensures
            r@ =~= spec_format_dms(
                hemi@[0],
                self.spec_dms().0,
                self.spec_dms().1,
                self.spec_dms().2,
            ),
    {
        let a = self.abs();
        proof {
            assert(a.mag() == self.abs_mag());
        }
        let sec = a.to::<ArcSeconds>();
        let secs = sec.magnitude();
        let total: i128 = match secs {
            Some(x) => x.trunc(),
            None => 0,  // excluded by the precondition
        };
        let d = trunc_div(total, 3600);
        proof {
            lemma_tdiv_rem(total as int, 3600);
        }
        let rem = total - 3600 * d;
        let m = trunc_div(rem, 60);
        proof {
            lemma_tdiv_rem(rem as int, 60);
        }
        let s = rem - 60 * m;
        format_dms(hemi, d as u32, m as u32, s as u32)
    }

    /// Lower into the dynamic engine: one numerator identity.
    pub fn as_dyn(&self) -> (r: DynamicUnits)
        requires
            self.wf(),
        ensures
            r.wf(),
            r.mag() == self.mag(),
            r.nums() == Multiset::<UnitId>::empty().insert(U::spec_id()),
            r.dens() == Multiset::<UnitId>::empty(),
    {
        DynamicUnits::new1o0::<U>(self.v)
    }
}

/// What `wrap` computes when the value lies outside the interval: the
/// remainder of `max - x` modulo the width `max - min`, taken off `max`.
pub open spec fn spec_wrap(x: Option<Rat>, lo: Option<Rat>, hi: Option<Rat>) -> Option<Rat> {
    match (x, lo, hi) {
        (Some(xv), Some(lv), Some(hv)) => {
            if lt_pair(lv.pair(), xv.pair()) && le_pair(xv.pair(), hv.pair()) {
                Some(xv)
            } else {
                match (spec_sub(hi, lo), spec_sub(hi, x)) {
                    (Some(wv), Some(qv)) => {
                        let md = (qv.num * wv.den) % (qv.den * wv.num);
                        spec_sub(hi, norm_pair(md, qv.den * wv.den))
                    },
                    _ => None,
                }
            }
        },
        _ => None,
    }
}

/// The width of a nonempty interval reduces to a positive numerator.
proof fn lemma_width_pos(hi: Rat, lo: Rat, w: Rat)
    requires
        hi.wf(),
        lo.wf(),
        lt_pair(lo.pair(), hi.pair()),
        spec_sub(Some(hi), Some(lo)) == Some(w),
    ensures
        w.num > 0,
        w.den > 0,
{
    let n = hi.num * lo.den - lo.num * hi.den;
    let d = hi.den * lo.den;
    crate::laws::lemma_norm_pair(n, d);
    assert(d > 0) by (nonlinear_arith)
        requires
            hi.den > 0,
            lo.den > 0,
            d == hi.den * lo.den,
    {}
    assert(w.num > 0) by (nonlinear_arith)
        requires
            w.num * d == n * w.den,
            n > 0,
            d > 0,
            w.den > 0,
    {}
}

/// The remainder of truncating division by a positive divisor: bounded by
/// the divisor in magnitude and carrying the numerator's sign.
proof fn lemma_tdiv_rem(n: int, d: int)
    requires
        d > 0,
    ensures
        n >= 0 ==> 0 <= n - d * spec_tdiv(n, d) < d,
        n < 0 ==> -d < n - d * spec_tdiv(n, d) <= 0,
{
    if n >= 0 {
        vstd::arithmetic::div_mod::lemma_fundamental_div_mod(n, d);
        vstd::arithmetic::div_mod::lemma_mod_bound(n, d);
    } else {
        vstd::arithmetic::div_mod::lemma_fundamental_div_mod(-n, d);
        vstd::arithmetic::div_mod::lemma_mod_bound(-n, d);
        assert(n - d * spec_tdiv(n, d) == -((-n) - d * ((-n) / d))) by (nonlinear_arith)
            requires
                spec_tdiv(n, d) == -((-n) / d),
        {}
    }
}

impl<U: AngleUnit> Clone for Angle<U> {
    fn clone(&self) -> (r: Self)
        ensures
            r.mag() == self.mag(),
    {
        Angle { v: self.v, unit: PhantomData }
    }
}

/// The decimal digit character for a value between zero and nine.
pub open spec fn digit_char(d: int) -> char {
    if d == 0 {
        '0'
    } else if d == 1 {
        '1'
    } else if d == 2 {
        '2'
    } else if d == 3 {
        '3'
    } else if d == 4 {
        '4'
    } else if d == 5 {
        '5'
    } else if d == 6 {
        '6'
    } else if d == 7 {
        '7'
    } else if d == 8 {
        '8'
    } else {
        '9'
    }
}

/// The fixed-width rendering of a hemisphere letter with degrees,
/// minutes and seconds: `N045d30m00s`.
pub open spec fn spec_format_dms(h: char, d: int, m: int, s: int) -> Seq<char> {
    seq![
        h,
        digit_char(d / 100),
        digit_char((d / 10) % 10),
        digit_char(d % 10),
        'd',
        digit_char(m / 10),
        digit_char(m % 10),
        'm',
        digit_char(s / 10),
        digit_char(s % 10),
        's',
    ]
}

/// One decimal digit as a string slice.
fn digit_str(d: u32) -> (r: &'static str)
    requires
        d < 10,
    ensures
        r@ =~= seq![digit_char(d as int)],
{
    let r: &'static str = if d == 0 {
        "0"
    } else if d == 1 {
        "1"
    } else if d == 2 {
        "2"
    } else if d == 3 {
        "3"
    } else if d == 4 {
        "4"
    } else if d == 5 {
        "5"
    } else if d == 6 {
        "6"
    } else if d == 7 {
        "7"
    } else if d == 8 {
        "8"
    } else {
        "9"
    };
    proof {
        reveal_strlit("0");
        reveal_strlit("1");
        reveal_strlit("2");
        reveal_strlit("3");
        reveal_strlit("4");
        reveal_strlit("5");
        reveal_strlit("6");
        reveal_strlit("7");
        reveal_strlit("8");
        reveal_strlit("9");
    }
    r
}

/// Render `<hemi><ddd>d<mm>m<ss>s`, each field zero-padded.
fn format_dms(hemi: &'static str, d: u32, m: u32, s: u32) -> (r: String)
    requires
        hemi@.len() == 1,
        d < 1000,
        m < 100,
        s < 100,
    ensures
        r@ =~= spec_format_dms(hemi@[0], d as int, m as int, s as int),
{
    let mut out = String::from_str(hemi);
    out.append(digit_str(d / 100));
    out.append(digit_str((d / 10) % 10));
    out.append(digit_str(d % 10));
    out.append("d");
    out.append(digit_str(m / 10));
    out.append(digit_str(m % 10));
    out.append("m");
    out.append(digit_str(s / 10));
    out.append(digit_str(s % 10));
    out.append("s");
    proof {
        reveal_strlit("d");
        reveal_strlit("m");
        reveal_strlit("s");
        assert(out@ =~= spec_format_dms(hemi@[0], d as int, m as int, s as int));
    }
    out
}

/// Strictly positive factors cancel from inequalities of products.
proof fn lemma_lt_cancel(x: int, y: int, k: int)
    requires
        k > 0,
        x * k < y * k,
    ensures
        x < y,
{
    assert(x < y) by (nonlinear_arith)
        requires
            k > 0,
            x * k < y * k,
    {}
}

proof fn lemma_le_cancel(x: int, y: int, k: int)
    requires
        k > 0,
        x * k <= y * k,
    ensures
        x <= y,
{
    assert(x <= y) by (nonlinear_arith)
        requires
            k > 0,
            x * k <= y * k,
    {}
}

/// A strict comparison against a fraction may be made against any
/// fraction of the same value.
proof fn lemma_lt_transfer(b: (int, int), a: (int, int), c: (int, int))
    requires
        a.1 > 0,
        c.1 > 0,
        b.1 > 0,
        eqv_pair(a, c),
        lt_pair(b, a),
    ensures
        lt_pair(b, c),
{
    assert((b.0 * c.1) * a.1 < (c.0 * b.1) * a.1) by (nonlinear_arith)
        requires
            b.0 * a.1 < a.0 * b.1,
            a.0 * c.1 == c.0 * a.1,
            c.1 > 0,
            b.1 > 0,
    {}
    lemma_lt_cancel(b.0 * c.1, c.0 * b.1, a.1);
}

/// Wrapping lands in the half-open interval: whenever `wrap` returns a
/// finite value for a finite argument, that value is above `min` and at
/// most `max`.
pub proof fn lemma_wrap_in_range(x: Rat, lo: Rat, hi: Rat)
    requires
        x.wf(),
        lo.wf(),
        hi.wf(),
        lt_pair(lo.pair(), hi.pair()),
    ensures
        spec_wrap(Some(x), Some(lo), Some(hi)) matches Some(r) ==> lt_pair(lo.pair(), r.pair())
            && le_pair(r.pair(), hi.pair()),
{
    let res = spec_wrap(Some(x), Some(lo), Some(hi));
    if res is Some && !(lt_pair(lo.pair(), x.pair()) && le_pair(x.pair(), hi.pair())) {
        let r = res->0;
        let wm = spec_sub(Some(hi), Some(lo));
        let qm = spec_sub(Some(hi), Some(x));
        let wv = wm->0;
        let qv = qm->0;
        let rawn = qv.num * wv.den;
        let rawd = qv.den * wv.num;
        let md = rawn % rawd;
        let mm = norm_pair(md, qv.den * wv.den);
        let mv = mm->0;
        crate::laws::lemma_norm_pair(
            hi.num * lo.den - lo.num * hi.den,
            hi.den * lo.den,
        );
        crate::laws::lemma_norm_pair(
            hi.num * x.den - x.num * hi.den,
            hi.den * x.den,
        );
        lemma_width_pos(hi, lo, wv);
        assert(rawd > 0) by (nonlinear_arith)
            requires
                qv.den > 0,
                wv.num > 0,
                rawd == qv.den * wv.num,
        {}
        vstd::arithmetic::div_mod::lemma_mod_bound(rawn, rawd);
        crate::laws::lemma_norm_pair(md, qv.den * wv.den);
        crate::laws::lemma_norm_pair(hi.num * mv.den - mv.num * hi.den, hi.den * mv.den);
        // The remainder magnitude is at least zero and below the width.
        assert(mv.num >= 0) by (nonlinear_arith)
            requires
                mv.num * (qv.den * wv.den) == md * mv.den,
                md >= 0,
                mv.den > 0,
                qv.den > 0,
                wv.den > 0,
        {}
        assert(lt_pair(mv.pair(), wv.pair())) by {
            assert((mv.num * wv.den) * qv.den < (wv.num * mv.den) * qv.den) by (nonlinear_arith)
                requires
                    mv.num * (qv.den * wv.den) == md * mv.den,
                    md < rawd,
                    rawd == qv.den * wv.num,
                    mv.den > 0,
                    qv.den > 0,
                    wv.den > 0,
            {}
            lemma_lt_cancel(mv.num * wv.den, wv.num * mv.den, qv.den as int);
        }
        // Upper bound: the result is the remainder taken off max.
        assert(le_pair(r.pair(), hi.pair())) by {
            assert((r.num * hi.den) * mv.den <= (hi.num * r.den) * mv.den) by (nonlinear_arith)
                requires
                    r.num * (hi.den * mv.den) == (hi.num * mv.den - mv.num * hi.den) * r.den,
                    mv.num >= 0,
                    hi.den > 0,
                    r.den > 0,
            {}
            lemma_le_cancel(r.num * hi.den, hi.num * r.den, mv.den as int);
        }
        // Lower bound: the remainder is below the width, so the result
        // stays above min.
        assert(lt_pair(mv.pair(), (hi.num * lo.den - lo.num * hi.den, hi.den * lo.den))) by {
            lemma_lt_transfer(
                mv.pair(),
                wv.pair(),
                (hi.num * lo.den - lo.num * hi.den, hi.den * lo.den),
            );
        }
        assert(lt_pair(lo.pair(), (hi.num * mv.den - mv.num * hi.den, hi.den * mv.den)))
            by (nonlinear_arith)
            requires
                mv.num * (hi.den * lo.den) < (hi.num * lo.den - lo.num * hi.den) * mv.den,
                hi.den > 0,
                lo.den > 0,
                mv.den > 0,
        {}
        assert(eqv_pair(r.pair(), (hi.num * mv.den - mv.num * hi.den, hi.den * mv.den)));
        assert(lt_pair(lo.pair(), r.pair())) by {
            assert((lo.num * r.den) * (hi.den * mv.den) < (r.num * lo.den) * (hi.den * mv.den))
                by (nonlinear_arith)
                requires
                    lo.num * (hi.den * mv.den) < (hi.num * mv.den - mv.num * hi.den) * lo.den,
                    r.num * (hi.den * mv.den) == (hi.num * mv.den - mv.num * hi.den) * r.den,
                    lo.den > 0,
                    r.den > 0,
                    hi.den > 0,
                    mv.den > 0,
            {}
            lemma_lt_cancel(lo.num * r.den, r.num * lo.den, hi.den * mv.den);
        }
    }
}

} // verus!
