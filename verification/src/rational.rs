use vstd::prelude::*;
use vstd::arithmetic::div_mod::{
    lemma_add_mod_noop, lemma_fundamental_div_mod, lemma_mod_multiples_basic,
    lemma_mod_self_0,
};

verus! {

/// Largest numerator magnitude and denominator a stored rational may hold.
/// The bound keeps every product of two stored components inside `i128`.
pub const MAG_LIMIT: i128 = 0x7fff_ffff_ffff_ffff;

/// An exact rational magnitude: `num / den`, with `den > 0` and both
/// components bounded by `MAG_LIMIT`. Magnitudes of every quantity in this
/// crate are rationals, so unit conversion is exact and every arithmetic
/// law below is an equality, not an approximation.
#[derive(Clone, Copy, Debug)]
pub struct Rat {
    pub num: i128,
    pub den: i128,
}

impl Rat {
    /// The representation invariant every stored magnitude satisfies.
    pub open spec fn wf(self) -> bool {
        0 < self.den <= MAG_LIMIT && -MAG_LIMIT <= self.num <= MAG_LIMIT
    }

    /// The rational as a pair of unbounded integers.
    pub open spec fn pair(self) -> (int, int) {
        (self.num as int, self.den as int)
    }

    /// Build a rational from an integer.
    pub fn from_int(v: i64) -> (r: Rat)
        requires
            -MAG_LIMIT <= v as int,
        ensures
            r.wf(),
            r.num == v as int,
            r.den == 1,
    {
        Rat { num: v as i128, den: 1 }
    }

    /// Build a normalized rational from a fraction of machine integers.
    /// `None` exactly when the denominator is zero.
    pub fn new(num: i64, den: i64) -> (r: Option<Rat>)
        requires
            -MAG_LIMIT <= num as int,
            -MAG_LIMIT <= den as int,
        ensures
            r == norm_pair(num as int, den as int),
    {
        norm(num as i128, den as i128)
    }

    /// Exact value equality (cross multiplication), which ignores the
    /// particular representation of the fraction.
    pub fn eqv(&self, other: &Rat) -> (r: bool)
        requires
            self.wf(),
            other.wf(),
        ensures
            r == eqv_pair(self.pair(), other.pair()),
    {
        proof {
            lemma_prod_bound(self.num as int, other.den as int);
            lemma_prod_bound(other.num as int, self.den as int);
        }
        self.num * other.den == other.num * self.den
    }

    /// Exact value ordering.
    pub fn lt(&self, other: &Rat) -> (r: bool)
        requires
            self.wf(),
            other.wf(),
        ensures
            r == lt_pair(self.pair(), other.pair()),
    {
        proof {
            lemma_prod_bound(self.num as int, other.den as int);
            lemma_prod_bound(other.num as int, self.den as int);
        }
        self.num * other.den < other.num * self.den
    }

    pub fn le(&self, other: &Rat) -> (r: bool)
        requires
            self.wf(),
            other.wf(),
        ensures
            r == le_pair(self.pair(), other.pair()),
    {
        proof {
            lemma_prod_bound(self.num as int, other.den as int);
            lemma_prod_bound(other.num as int, self.den as int);
        }
        self.num * other.den <= other.num * self.den
    }

    pub fn is_zero(&self) -> (r: bool)
        requires
            self.wf(),
        ensures
            r == (self.num == 0),
    {
        self.num == 0
    }

    /// Exact negation; never overflows thanks to the symmetric bound.
    pub fn neg(&self) -> (r: Rat)
        requires
            self.wf(),
        ensures
            r.wf(),
            r.num == -self.num,
            r.den == self.den,
    {
        Rat { num: -self.num, den: self.den }
    }

    /// Exact absolute value.
    pub fn abs(&self) -> (r: Rat)
        requires
            self.wf(),
        ensures
            r.wf(),
            r.num == iabs(self.num as int),
            r.den == self.den,
    {
        if self.num < 0 {
            Rat { num: -self.num, den: self.den }
        } else {
            *self
        }
    }
}


/// Truncation of a rational toward zero, at the specification level.
pub open spec fn spec_trunc(r: Rat) -> int {
    if r.num >= 0 {
        r.num as int / r.den as int
    } else {
        -((-(r.num as int)) / r.den as int)
    }
}

impl Rat {
    /// The integer part of the rational, rounded toward zero.
    pub fn trunc(&self) -> (t: i128)
        requires
            self.wf(),
        ensures
            t == spec_trunc(*self),
    {
        if self.num >= 0 {
            ((self.num as u128) / (self.den as u128)) as i128
        } else {
            proof {
                vstd::arithmetic::div_mod::lemma_div_pos_is_pos(
                    -(self.num as int),
                    self.den as int,
                );
                vstd::arithmetic::div_mod::lemma_div_nonincreasing(
                    -(self.num as int),
                    self.den as int,
                );
            }
            -((((-self.num) as u128) / (self.den as u128)) as i128)
        }
    }
}

/// Euclidean remainder on machine integers: the result lies in `[0, d)`
/// and differs from `n` by a multiple of `d`.
pub fn euclid_mod(n: i128, d: i128) -> (r: i128)
    requires
        0 < d,
        -0x7fff_ffff_ffff_ffff_ffff_ffff_ffff_ffff <= n,
    ensures
        r == n as int % d as int,
{
    if n >= 0 {
        ((n as u128) % (d as u128)) as i128
    } else {
        let m = ((-n) as u128) % (d as u128);
        proof {
            lemma_fundamental_div_mod(-(n as int), d as int);
            let q = -(n as int) / d as int;
            let md = -(n as int) % d as int;
            if md == 0 {
                assert(n as int == (-q) * d as int + 0) by (nonlinear_arith)
                    requires
                        -(n as int) == q * d as int + md,
                        md == 0,
                {}
                vstd::arithmetic::div_mod::lemma_fundamental_div_mod_converse(
                    n as int,
                    d as int,
                    -q,
                    0,
                );
            } else {
                assert(n as int == (-q - 1) * d as int + (d - md)) by (nonlinear_arith)
                    requires
                        -(n as int) == q * d as int + md,
                {}
                vstd::arithmetic::div_mod::lemma_fundamental_div_mod_converse(
                    n as int,
                    d as int,
                    -q - 1,
                    d - md,
                );
            }
        }
        if m == 0 {
            0
        } else {
            d - (m as i128)
        }
    }
}


/// Signed division truncated toward zero, at the specification level.
pub open spec fn spec_tdiv(n: int, d: int) -> int {
    if n >= 0 {
        n / d
    } else {
        -((-n) / d)
    }
}

/// Division of machine integers truncated toward zero.
pub fn trunc_div(n: i128, d: i128) -> (r: i128)
    requires
        0 < d,
        -0x7fff_ffff_ffff_ffff_ffff_ffff_ffff_ffff <= n,
    ensures
        r == spec_tdiv(n as int, d as int),
{
    if n >= 0 {
        proof {
            vstd::arithmetic::div_mod::lemma_div_pos_is_pos(n as int, d as int);
            vstd::arithmetic::div_mod::lemma_div_nonincreasing(n as int, d as int);
        }
        ((n as u128) / (d as u128)) as i128
    } else {
        proof {
            vstd::arithmetic::div_mod::lemma_div_pos_is_pos(-(n as int), d as int);
            vstd::arithmetic::div_mod::lemma_div_nonincreasing(-(n as int), d as int);
        }
        -((((-n) as u128) / (d as u128)) as i128)
    }
}

/// Absolute value of an integer, as a natural number.
pub open spec fn iabs(x: int) -> nat {
    if x < 0 {
        (-x) as nat
    } else {
        x as nat
    }
}

/// Euclid's greatest common divisor.
pub open spec fn gcd(a: nat, b: nat) -> nat
    decreases b,
{
    if b == 0 {
        a
    } else {
        gcd(b, a % b)
    }
}

/// `gcd(a, b)` is positive and divides both arguments whenever one of them
/// is positive.
pub proof fn lemma_gcd_divides(a: nat, b: nat)
    requires
        a > 0 || b > 0,
    ensures
        gcd(a, b) > 0,
        a % gcd(a, b) == 0,
        b % gcd(a, b) == 0,
    decreases b,
{
    if b == 0 {
        lemma_mod_self_0(a as int);
        assert(0nat % gcd(a, b) == 0) by {
            lemma_mod_multiples_basic(0, gcd(a, b) as int);
        }
    } else {
        let g = gcd(b, a % b);
        lemma_gcd_divides(b, a % b);
        // a == b * (a / b) + a % b, and g divides both summands.
        lemma_fundamental_div_mod(a as int, b as int);
        let q = a as int / b as int;
        lemma_div_exact(b as int, g as int);
        let bq = b as int / g as int;
        // b * q == g * (bq * q)
        assert(b as int * q == g as int * (bq * q)) by (nonlinear_arith)
            requires
                b as int == g as int * bq,
        {}
        assert((b as int * q) % g as int == 0) by {
            lemma_mod_multiples_basic(bq * q, g as int);
            assert(g as int * (bq * q) == (bq * q) * g as int) by (nonlinear_arith) {}
        }
        assert(a as int % g as int == 0) by {
            lemma_add_mod_noop(b as int * q, (a % b) as int, g as int);
        }
    }
}

/// If `d` divides `x` exactly then `x == d * (x / d)`.
proof fn lemma_div_exact(x: int, d: int)
    requires
        d > 0,
        x % d == 0,
    ensures
        x == d * (x / d),
{
    lemma_fundamental_div_mod(x, d);
}

/// Bound on the product of two components of well-formed rationals.
pub(crate) proof fn lemma_prod_bound(a: int, b: int)
    requires
        -MAG_LIMIT <= a <= MAG_LIMIT,
        -MAG_LIMIT <= b <= MAG_LIMIT,
    ensures
        -(MAG_LIMIT * MAG_LIMIT) <= a * b <= MAG_LIMIT * MAG_LIMIT,
{
    assert(-(MAG_LIMIT * MAG_LIMIT) <= a * b <= MAG_LIMIT * MAG_LIMIT) by (nonlinear_arith)
        requires
            -MAG_LIMIT <= a <= MAG_LIMIT,
            -MAG_LIMIT <= b <= MAG_LIMIT,
    {}
}

/// Whether the fraction `n / d` has a normal form within `MAG_LIMIT`.
pub open spec fn norm_ok(n: int, d: int) -> bool {
    d != 0 && {
        let g = gcd(iabs(n), iabs(d));
        iabs(n) / g <= MAG_LIMIT && iabs(d) / g <= MAG_LIMIT
    }
}

/// Numerator of the normal form of `n / d` (sign carried here).
pub open spec fn norm_num(n: int, d: int) -> int {
    let g = gcd(iabs(n), iabs(d));
    let q = iabs(n) / g;
    if (n < 0) == (d < 0) {
        q as int
    } else {
        -(q as int)
    }
}

/// Denominator of the normal form of `n / d`; always positive.
pub open spec fn norm_den(n: int, d: int) -> int {
    let g = gcd(iabs(n), iabs(d));
    (iabs(d) / g) as int
}

/// The normal form of `n / d` as a magnitude: `None` when the denominator
/// is zero or the reduced fraction does not fit in the representation.
pub open spec fn norm_pair(n: int, d: int) -> Option<Rat> {
    if norm_ok(n, d) {
        Some(Rat { num: norm_num(n, d) as i128, den: norm_den(n, d) as i128 })
    } else {
        None
    }
}

/// The normal form represents the same rational as the input fraction,
/// with a positive denominator.
pub proof fn lemma_norm_eqv(n: int, d: int)
    requires
        norm_ok(n, d),
    ensures
        0 < norm_den(n, d),
        norm_num(n, d) * d == n * norm_den(n, d),
        n != 0 ==> norm_num(n, d) != 0,
{
    let na = iabs(n);
    let da = iabs(d);
    let g = gcd(na, da);
    lemma_gcd_divides(na, da);
    lemma_div_exact(na as int, g as int);
    lemma_div_exact(da as int, g as int);
    let nq = na as int / g as int;
    let dq = da as int / g as int;
    // da > 0 and g | da, so dq >= 1.
    assert(dq > 0) by (nonlinear_arith)
        requires
            da as int == g as int * dq,
            da > 0,
            g > 0,
            dq >= 0,
    {}
    assert(nq >= 0) by (nonlinear_arith)
        requires
            na as int == g as int * nq,
            na >= 0,
            g > 0,
    {}
    assert(nq * da as int == na as int * dq) by (nonlinear_arith)
        requires
            na as int == g as int * nq,
            da as int == g as int * dq,
    {}
    assert(norm_num(n, d) * d == n * norm_den(n, d)) by (nonlinear_arith)
        requires
            nq * da as int == na as int * dq,
            norm_den(n, d) == dq,
            norm_num(n, d) == if (n < 0) == (d < 0) { nq } else { -nq },
            na == iabs(n),
            da == iabs(d),
            n < 0 ==> na == -n,
            n >= 0 ==> na == n,
            d < 0 ==> da == -d,
            d >= 0 ==> da == d,
    {}
    if n != 0 {
        assert(nq != 0) by (nonlinear_arith)
            requires
                na as int == g as int * nq,
                na > 0,
                g > 0,
        {}
    }
}

/// Exact value equality of two fractions with nonzero denominators.
pub open spec fn eqv_pair(a: (int, int), b: (int, int)) -> bool {
    a.0 * b.1 == b.0 * a.1
}

/// Exact ordering of two fractions with positive denominators.
pub open spec fn lt_pair(a: (int, int), b: (int, int)) -> bool {
    a.0 * b.1 < b.0 * a.1
}

pub open spec fn le_pair(a: (int, int), b: (int, int)) -> bool {
    a.0 * b.1 <= b.0 * a.1
}

/// Exec gcd on machine words, equal to the spec `gcd`.
fn gcd_u128(a0: u128, b0: u128) -> (g: u128)
    ensures
        g as nat == gcd(a0 as nat, b0 as nat),
{
    let mut a = a0;
    let mut b = b0;
    while b != 0
        invariant
            gcd(a as nat, b as nat) == gcd(a0 as nat, b0 as nat),
        decreases b,
    {
        let t = a % b;
        a = b;
        b = t;
    }
    a
}

/// Normalize the fraction `n / d`: divide through by the gcd, carry the
/// sign on the numerator, and reject results outside `MAG_LIMIT`.
pub fn norm(n: i128, d: i128) -> (r: Option<Rat>)
    requires
        -0x7fff_ffff_ffff_ffff_ffff_ffff_ffff_ffff <= n,
        -0x7fff_ffff_ffff_ffff_ffff_ffff_ffff_ffff <= d,
    ensures
        r == norm_pair(n as int, d as int),
        r matches Some(q) ==> q.wf(),
{
    if d == 0 {
        return None;
    }
    let na: u128 = if n < 0 { (-n) as u128 } else { n as u128 };
    let da: u128 = if d < 0 { (-d) as u128 } else { d as u128 };
    proof {
        assert(na as nat == iabs(n as int));
        assert(da as nat == iabs(d as int));
        lemma_gcd_divides(na as nat, da as nat);
    }
    let g = gcd_u128(na, da);
    let nq = na / g;
    let dq = da / g;
    if nq <= (MAG_LIMIT as u128) && dq <= (MAG_LIMIT as u128) {
        proof {
            lemma_norm_eqv(n as int, d as int);
        }
        let num: i128 = if (n < 0) != (d < 0) { -(nq as i128) } else { nq as i128 };
        Some(Rat { num, den: dq as i128 })
    } else {
        None
    }
}

} // verus!
use vstd::prelude::*;

verus! {

// A magnitude is `Some(rational)` for a finite representable value, or
// `None` when a computation left the representable range. `None`
// propagates through arithmetic, the way non-finite values propagate
// through machine arithmetic, and sorts greater than every finite value.

/// Every finite magnitude is a well-formed rational.
pub open spec fn mag_wf(m: Option<Rat>) -> bool {
    m matches Some(q) ==> q.wf()
}

/// Exact sum of two magnitudes, in normal form.
pub open spec fn spec_add(a: Option<Rat>, b: Option<Rat>) -> Option<Rat> {
    match (a, b) {
        (Some(x), Some(y)) => norm_pair(
            x.num * y.den + y.num * x.den,
            x.den * y.den,
        ),
        _ => None,
    }
}

/// Exact difference of two magnitudes, in normal form.
pub open spec fn spec_sub(a: Option<Rat>, b: Option<Rat>) -> Option<Rat> {
    match (a, b) {
        (Some(x), Some(y)) => norm_pair(
            x.num * y.den - y.num * x.den,
            x.den * y.den,
        ),
        _ => None,
    }
}

/// Exact product of two magnitudes, in normal form.
pub open spec fn spec_mul(a: Option<Rat>, b: Option<Rat>) -> Option<Rat> {
    match (a, b) {
        (Some(x), Some(y)) => norm_pair(x.num * y.num, x.den * y.den),
        _ => None,
    }
}

/// Exact quotient of two magnitudes, in normal form; `None` on a zero
/// divisor.
pub open spec fn spec_div(a: Option<Rat>, b: Option<Rat>) -> Option<Rat> {
    match (a, b) {
        (Some(x), Some(y)) => norm_pair(x.num * y.den, x.den * y.num),
        _ => None,
    }
}

/// Exact scaling by the ratio `num / den`: the single step every unit
/// conversion in this crate consists of.
pub open spec fn spec_scale(m: Option<Rat>, num: Rat, den: Rat) -> Option<Rat> {
    spec_div(spec_mul(m, Some(num)), Some(den))
}

/// Value equality of magnitudes: two finite magnitudes are equal when
/// their fractions are, and the non-finite magnitude equals only itself.
pub open spec fn eqv_mag(a: Option<Rat>, b: Option<Rat>) -> bool {
    match (a, b) {
        (Some(x), Some(y)) => eqv_pair(x.pair(), y.pair()),
        (None, None) => true,
        _ => false,
    }
}

/// Total order on magnitudes: finite values order by exact value and the
/// non-finite magnitude is greater than every finite one.
pub open spec fn le_mag(a: Option<Rat>, b: Option<Rat>) -> bool {
    match (a, b) {
        (Some(x), Some(y)) => le_pair(x.pair(), y.pair()),
        (_, None) => true,
        (None, Some(_)) => false,
    }
}

pub open spec fn lt_mag(a: Option<Rat>, b: Option<Rat>) -> bool {
    !le_mag(b, a)
}

/// Exact addition on magnitudes.
pub fn mag_add(a: &Option<Rat>, b: &Option<Rat>) -> (r: Option<Rat>)
    requires
        mag_wf(*a),
        mag_wf(*b),
    ensures
        r == spec_add(*a, *b),
        mag_wf(r),
{
    match (a, b) {
        (Some(x), Some(y)) => {
            proof {
                lemma_prod_bound(x.num as int, y.den as int);
                lemma_prod_bound(y.num as int, x.den as int);
                lemma_prod_bound(x.den as int, y.den as int);
            }
            norm(x.num * y.den + y.num * x.den, x.den * y.den)
        },
        _ => None,
    }
}

/// Exact subtraction on magnitudes.
pub fn mag_sub(a: &Option<Rat>, b: &Option<Rat>) -> (r: Option<Rat>)
    requires
        mag_wf(*a),
        mag_wf(*b),
    ensures
        r == spec_sub(*a, *b),
        mag_wf(r),
{
    match (a, b) {
        (Some(x), Some(y)) => {
            proof {
                lemma_prod_bound(x.num as int, y.den as int);
                lemma_prod_bound(y.num as int, x.den as int);
                lemma_prod_bound(x.den as int, y.den as int);
            }
            norm(x.num * y.den - y.num * x.den, x.den * y.den)
        },
        _ => None,
    }
}

/// Exact multiplication on magnitudes.
pub fn mag_mul(a: &Option<Rat>, b: &Option<Rat>) -> (r: Option<Rat>)
    requires
        mag_wf(*a),
        mag_wf(*b),
    ensures
        r == spec_mul(*a, *b),
        mag_wf(r),
{
    match (a, b) {
        (Some(x), Some(y)) => {
            proof {
                lemma_prod_bound(x.num as int, y.num as int);
                lemma_prod_bound(x.den as int, y.den as int);
            }
            norm(x.num * y.num, x.den * y.den)
        },
        _ => None,
    }
}

/// Exact division on magnitudes; a zero divisor gives the non-finite
/// magnitude.
pub fn mag_div(a: &Option<Rat>, b: &Option<Rat>) -> (r: Option<Rat>)
    requires
        mag_wf(*a),
        mag_wf(*b),
    ensures
        r == spec_div(*a, *b),
        mag_wf(r),
{
    match (a, b) {
        (Some(x), Some(y)) => {
            proof {
                lemma_prod_bound(x.num as int, y.den as int);
                lemma_prod_bound(x.den as int, y.num as int);
            }
            norm(x.num * y.den, x.den * y.num)
        },
        _ => None,
    }
}

/// Exact negation on magnitudes.
pub fn mag_neg(a: &Option<Rat>) -> (r: Option<Rat>)
    requires
        mag_wf(*a),
    ensures
        r == spec_neg(*a),
        mag_wf(r),
{
    match a {
        Some(x) => Some(x.neg()),
        None => None,
    }
}

/// Exact negation, at the specification level.
pub open spec fn spec_neg(a: Option<Rat>) -> Option<Rat> {
    match a {
        Some(x) => Some(Rat { num: (-(x.num as int)) as i128, den: x.den }),
        None => None,
    }
}

/// One conversion step: multiply by `num`, divide by `den`.
pub fn mag_scale(m: &Option<Rat>, num: &Rat, den: &Rat) -> (r: Option<Rat>)
    requires
        mag_wf(*m),
        num.wf(),
        den.wf(),
    ensures
        r == spec_scale(*m, *num, *den),
        mag_wf(r),
{
    let t = mag_mul(m, &Some(*num));
    mag_div(&t, &Some(*den))
}

/// Total-order comparison on magnitudes, the non-finite magnitude
/// greatest.
pub fn mag_le(a: &Option<Rat>, b: &Option<Rat>) -> (r: bool)
    requires
        mag_wf(*a),
        mag_wf(*b),
    ensures
        r == le_mag(*a, *b),
{
    match (a, b) {
        (Some(x), Some(y)) => x.le(y),
        (_, None) => true,
        (None, Some(_)) => false,
    }
}

/// Value equality on magnitudes.
pub fn mag_eq(a: &Option<Rat>, b: &Option<Rat>) -> (r: bool)
    requires
        mag_wf(*a),
        mag_wf(*b),
    ensures
        r == eqv_mag(*a, *b),
{
    match (a, b) {
        (Some(x), Some(y)) => x.eqv(y),
        (None, None) => true,
        _ => false,
    }
}

} // verus!
