use vstd::prelude::*;
use crate::length::Length;
use crate::temperature::{spec_from_kelvin, spec_to_kelvin, Temperature};
use crate::units::{LengthUnit, TemperatureUnit, TimeUnit};
use crate::velocity::Velocity;
use crate::rational::{
    eqv_mag, eqv_pair, gcd, iabs, le_mag, le_pair, lemma_gcd_divides, lemma_norm_eqv, mag_wf,
    norm_den, norm_num, norm_ok, norm_pair, spec_add, spec_div, spec_mul, spec_scale, spec_sub,
    Rat,
};

verus! {

/// Equal nonzero factors cancel from an equality of products.
proof fn lemma_cancel_mul(x: int, y: int, k: int)
    requires
        k != 0,
        x * k == y * k,
    ensures
        x == y,
{
    assert(x == y) by (nonlinear_arith)
        requires
            k != 0,
            x * k == y * k,
    {}
}

/// Value equality of fractions is transitive when the middle denominator
/// is nonzero.
pub proof fn lemma_eqv_pair_trans(a: (int, int), b: (int, int), c: (int, int))
    requires
        b.1 != 0,
        eqv_pair(a, b),
        eqv_pair(b, c),
    ensures
        eqv_pair(a, c),
{
    assert((a.0 * c.1) * b.1 == (c.0 * a.1) * b.1) by (nonlinear_arith)
        requires
            a.0 * b.1 == b.0 * a.1,
            b.0 * c.1 == c.0 * b.1,
    {}
    lemma_cancel_mul(a.0 * c.1, c.0 * a.1, b.1);
}

/// What the normal form of `n / d` is worth: a positive denominator and
/// the exact value of the input fraction.
pub proof fn lemma_norm_pair(n: int, d: int)
    ensures
        norm_pair(n, d) matches Some(q) ==> {
            &&& q.wf()
            &&& q.num * d == n * q.den
            &&& (n != 0 ==> q.num != 0)
        },
{
    if norm_ok(n, d) {
        lemma_norm_eqv(n, d);
        let g = gcd(iabs(n), iabs(d));
        lemma_gcd_divides(iabs(n), iabs(d));
        assert(0 <= iabs(n) / g && 0 <= iabs(d) / g) by (nonlinear_arith)
            requires
                g > 0,
        {}
        assert(norm_pair(n, d)->0.num == norm_num(n, d));
        assert(norm_pair(n, d)->0.den == norm_den(n, d));
    }
}

/// Addition of magnitudes is commutative, exactly.
pub proof fn lemma_add_comm(a: Option<Rat>, b: Option<Rat>)
    ensures
        spec_add(a, b) == spec_add(b, a),
{
    match (a, b) {
        (Some(x), Some(y)) => {
            assert(x.num * y.den + y.num * x.den == y.num * x.den + x.num * y.den);
            assert(x.den * y.den == y.den * x.den) by (nonlinear_arith) {}
        },
        _ => {},
    }
}

/// Multiplication of magnitudes is commutative, exactly.
pub proof fn lemma_mul_comm(a: Option<Rat>, b: Option<Rat>)
    ensures
        spec_mul(a, b) == spec_mul(b, a),
{
    match (a, b) {
        (Some(x), Some(y)) => {
            assert(x.num * y.num == y.num * x.num) by (nonlinear_arith) {}
            assert(x.den * y.den == y.den * x.den) by (nonlinear_arith) {}
        },
        _ => {},
    }
}

/// A finite sum is worth the exact sum of its operands.
proof fn lemma_add_value(x: Rat, y: Rat)
    requires
        x.wf(),
        y.wf(),
    ensures
        spec_add(Some(x), Some(y)) matches Some(r) ==> {
            &&& r.wf()
            &&& r.num * (x.den * y.den) == (x.num * y.den + y.num * x.den) * r.den
        },
{
    lemma_norm_pair(x.num * y.den + y.num * x.den, x.den * y.den);
}

/// Adding `z` to two fractions worth the same value gives fractions worth
/// the same value (stated over raw cross products).
#[verifier::rlimit(50)]
proof fn lemma_add_eqv_compat(i: (int, int), z: (int, int), n: int, d: int)
    requires
        i.0 * d == n * i.1,
    ensures
        (i.0 * z.1 + z.0 * i.1) * (d * z.1) == (n * z.1 + z.0 * d) * (i.1 * z.1),
{
    assert((i.0 * z.1 + z.0 * i.1) * (d * z.1) == (n * z.1 + z.0 * d) * (i.1 * z.1))
        by (nonlinear_arith)
        requires
            i.0 * d == n * i.1,
    {}
}

/// Addition of magnitudes is associative up to value equality: whenever
/// both groupings are finite, they are worth the same exact value.
#[verifier::rlimit(50)]
pub proof fn lemma_add_assoc(a: Option<Rat>, b: Option<Rat>, c: Option<Rat>)
    requires
        mag_wf(a),
        mag_wf(b),
        mag_wf(c),
    ensures
        (spec_add(spec_add(a, b), c) is Some && spec_add(a, spec_add(b, c)) is Some)
            ==> eqv_mag(spec_add(spec_add(a, b), c), spec_add(a, spec_add(b, c))),
{
    let lhs = spec_add(spec_add(a, b), c);
    let rhs = spec_add(a, spec_add(b, c));
    if lhs is Some && rhs is Some {
        let x = a->0;
        let y = b->0;
        let z = c->0;
        let i = spec_add(a, b)->0;
        let j = spec_add(b, c)->0;
        let l = lhs->0;
        let r = rhs->0;
        // The common exact value, over the product of all three denominators.
        let full = x.num * (y.den * z.den) + y.num * (x.den * z.den) + z.num * (x.den * y.den);
        let fden = x.den * (y.den * z.den);
        lemma_add_value(x, y);
        lemma_add_value(y, z);
        lemma_add_value(i, z);
        lemma_add_value(x, j);
        assert(fden != 0) by (nonlinear_arith)
            requires
                x.den > 0,
                y.den > 0,
                z.den > 0,
                fden == x.den * (y.den * z.den),
        {}
        // Left grouping: replace i by its value over x.den * y.den.
        lemma_add_eqv_compat(
            (i.num as int, i.den as int),
            (z.num as int, z.den as int),
            x.num * y.den + y.num * x.den,
            x.den * y.den,
        );
        assert(((x.num * y.den + y.num * x.den) * z.den + z.num * (x.den * y.den)) * fden == full
            * ((x.den * y.den) * z.den)) by (nonlinear_arith)
            requires
                full == x.num * (y.den * z.den) + y.num * (x.den * z.den) + z.num * (x.den
                    * y.den),
                fden == x.den * (y.den * z.den),
        {}
        assert((x.den * y.den) * z.den != 0) by (nonlinear_arith)
            requires
                x.den > 0,
                y.den > 0,
                z.den > 0,
        {}
        lemma_eqv_pair_trans(
            (i.num * z.den + z.num * i.den, i.den * z.den),
            ((x.num * y.den + y.num * x.den) * z.den + z.num * (x.den * y.den), (x.den * y.den)
                * z.den),
            (full, fden),
        );
        lemma_eqv_pair_trans(
            l.pair(),
            (i.num * z.den + z.num * i.den, i.den * z.den),
            (full, fden),
        );
        // Right grouping: replace j by its value over y.den * z.den.
        lemma_add_eqv_compat(
            (j.num as int, j.den as int),
            (x.num as int, x.den as int),
            y.num * z.den + z.num * y.den,
            y.den * z.den,
        );
        assert(((y.num * z.den + z.num * y.den) * x.den + x.num * (y.den * z.den)) * fden == full
            * ((y.den * z.den) * x.den)) by (nonlinear_arith)
            requires
                full == x.num * (y.den * z.den) + y.num * (x.den * z.den) + z.num * (x.den
                    * y.den),
                fden == x.den * (y.den * z.den),
        {}
        assert((y.den * z.den) * x.den != 0) by (nonlinear_arith)
            requires
                x.den > 0,
                y.den > 0,
                z.den > 0,
        {}
        assert(j.num * x.den + x.num * j.den == x.num * j.den + j.num * x.den);
        assert(j.den * x.den == x.den * j.den) by (nonlinear_arith) {}
        lemma_eqv_pair_trans(
            (x.num * j.den + j.num * x.den, x.den * j.den),
            ((y.num * z.den + z.num * y.den) * x.den + x.num * (y.den * z.den), (y.den * z.den)
                * x.den),
            (full, fden),
        );
        lemma_eqv_pair_trans(
            r.pair(),
            (x.num * j.den + j.num * x.den, x.den * j.den),
            (full, fden),
        );
        assert(eqv_pair((full, fden), r.pair())) by {
            assert((full * r.den) * fden == (r.num * fden) * fden) by (nonlinear_arith)
                requires
                    r.num * fden == full * r.den,
            {}
            lemma_cancel_mul(full * r.den, r.num * fden, fden);
        }
        lemma_eqv_pair_trans(l.pair(), (full, fden), r.pair());
    }
}

/// What one conversion step is worth: scaling a finite magnitude `m` by
/// `num / den` yields, when finite, exactly `m * num / den`.
pub proof fn lemma_scale_value(m: Rat, num: Rat, den: Rat)
    requires
        m.wf(),
        num.wf(),
        den.wf(),
        num.num > 0,
        den.num > 0,
    ensures
        spec_scale(Some(m), num, den) matches Some(r) ==> {
            &&& 0 < r.den
            &&& r.num * (m.den * (num.den * den.num)) == (m.num * (num.num * den.den)) * r.den
        },
{
    let s = spec_scale(Some(m), num, den);
    if s is Some {
        let t = spec_mul(Some(m), Some(num));
        let q = t->0;
        let r = s->0;
        lemma_norm_pair(m.num * num.num, m.den * num.den);
        lemma_norm_pair(q.num * den.den, q.den * den.num);
        assert((r.num * (m.den * (num.den * den.num))) * q.den == (r.num * (q.den * den.num))
            * (m.den * num.den)) by (nonlinear_arith) {}
        assert(((q.num * den.den) * r.den) * (m.den * num.den) == (q.num * (m.den * num.den))
            * (den.den * r.den)) by (nonlinear_arith) {}
        assert(((m.num * num.num) * q.den) * (den.den * r.den) == ((m.num * (num.num * den.den))
            * r.den) * q.den) by (nonlinear_arith) {}
        assert((r.num * (m.den * (num.den * den.num))) * q.den == ((m.num * (num.num * den.den))
            * r.den) * q.den);
        assert(q.den != 0);
        lemma_cancel_mul(
            r.num * (m.den * (num.den * den.num)),
            (m.num * (num.num * den.den)) * r.den,
            q.den as int,
        );
    }
}

/// A finite scale result is a well-formed rational.
pub proof fn lemma_scale_wf(m: Rat, num: Rat, den: Rat)
    ensures
        spec_scale(Some(m), num, den) matches Some(r) ==> r.wf(),
{
    let t = spec_mul(Some(m), Some(num));
    lemma_norm_pair(m.num * num.num, m.den * num.den);
    if t is Some {
        let q = t->0;
        lemma_norm_pair(q.num * den.den, q.den * den.num);
    }
}

/// Chaining two exact scalings multiplies the scale fractions: from
/// `r = m * f` and `t = r * g` (cross-multiplied), `t = m * (f * g)`.
proof fn lemma_scale_chain(m: (int, int), r: (int, int), t: (int, int), f: (int, int), g: (
    int,
    int,
))
    requires
        r.1 != 0,
        r.0 * (m.1 * f.1) == (m.0 * f.0) * r.1,
        t.0 * (r.1 * g.1) == (r.0 * g.0) * t.1,
    ensures
        t.0 * (m.1 * (f.1 * g.1)) == (m.0 * (f.0 * g.0)) * t.1,
{
    assert((t.0 * (m.1 * (f.1 * g.1))) * r.1 == (t.0 * (r.1 * g.1)) * (m.1 * f.1))
        by (nonlinear_arith) {}
    assert(((r.0 * g.0) * t.1) * (m.1 * f.1) == (r.0 * (m.1 * f.1)) * (g.0 * t.1))
        by (nonlinear_arith) {}
    assert(((m.0 * f.0) * r.1) * (g.0 * t.1) == ((m.0 * (f.0 * g.0)) * t.1) * r.1)
        by (nonlinear_arith) {}
    assert((t.0 * (m.1 * (f.1 * g.1))) * r.1 == ((m.0 * (f.0 * g.0)) * t.1) * r.1);
    lemma_cancel_mul(t.0 * (m.1 * (f.1 * g.1)), (m.0 * (f.0 * g.0)) * t.1, r.1);
}

/// Converting to another unit and back returns the exact starting value
/// whenever both conversions stay representable.
#[verifier::rlimit(50)]
pub proof fn lemma_scale_round_trip(m: Rat, a: Rat, b: Rat)
    requires
        m.wf(),
        a.wf(),
        b.wf(),
        a.num > 0,
        b.num > 0,
    ensures
        ({
            let there = spec_scale(Some(m), a, b);
            let back = spec_scale(there, b, a);
            back matches Some(r) ==> eqv_pair(r.pair(), m.pair())
        }),
{
    let there = spec_scale(Some(m), a, b);
    let back = spec_scale(there, b, a);
    if back is Some {
        let r1 = there->0;
        let r2 = back->0;
        lemma_scale_value(m, a, b);
        lemma_scale_wf(m, a, b);
        lemma_scale_value(r1, b, a);
        lemma_scale_chain(
            (m.num as int, m.den as int),
            r1.pair(),
            r2.pair(),
            (a.num * b.den, a.den * b.num),
            (b.num * a.den, b.den * a.num),
        );
        // Up and down the same ratio: the combined scale fraction is one.
        let k = (a.num * b.den) * (b.num * a.den);
        assert((a.den * b.num) * (b.den * a.num) == k) by (nonlinear_arith)
            requires
                k == (a.num * b.den) * (b.num * a.den),
        {}
        assert(k != 0) by (nonlinear_arith)
            requires
                a.num > 0,
                b.num > 0,
                a.den > 0,
                b.den > 0,
                k == (a.num * b.den) * (b.num * a.den),
        {}
        assert((r2.num * m.den) * k == (m.num * r2.den) * k) by (nonlinear_arith)
            requires
                r2.num * (m.den * k) == (m.num * k) * r2.den,
                k == (a.num * b.den) * (b.num * a.den),
        {}
        lemma_cancel_mul(r2.num * m.den, m.num * r2.den, k);
    }
}

/// Converting straight to a third unit agrees with converting in two
/// steps, whenever both paths stay representable.
#[verifier::rlimit(50)]
pub proof fn lemma_scale_compose(m: Rat, u: Rat, v: Rat, w: Rat)
    requires
        m.wf(),
        u.wf(),
        v.wf(),
        w.wf(),
        u.num > 0,
        v.num > 0,
        w.num > 0,
    ensures
        ({
            let direct = spec_scale(Some(m), u, v);
            let indirect = spec_scale(spec_scale(Some(m), u, w), w, v);
            (direct is Some && indirect is Some) ==> eqv_mag(direct, indirect)
        }),
{
    let direct = spec_scale(Some(m), u, v);
    let step = spec_scale(Some(m), u, w);
    let indirect = spec_scale(step, w, v);
    if direct is Some && indirect is Some {
        let d = direct->0;
        let s = step->0;
        let i = indirect->0;
        lemma_scale_value(m, u, v);
        lemma_scale_value(m, u, w);
        lemma_scale_wf(m, u, w);
        lemma_scale_value(s, w, v);
        lemma_scale_chain(
            (m.num as int, m.den as int),
            s.pair(),
            i.pair(),
            (u.num * w.den, u.den * w.num),
            (w.num * v.den, w.den * v.num),
        );
        // The middle unit cancels out of the combined fraction.
        let ww = w.den * w.num;
        assert((u.num * w.den) * (w.num * v.den) == (u.num * v.den) * ww) by (nonlinear_arith)
            requires
                ww == w.den * w.num,
        {}
        assert((u.den * w.num) * (w.den * v.num) == (u.den * v.num) * ww) by (nonlinear_arith)
            requires
                ww == w.den * w.num,
        {}
        assert((i.num * (m.den * (u.den * v.num))) * ww == ((m.num * (u.num * v.den)) * i.den)
            * ww) by (nonlinear_arith)
            requires
                i.num * (m.den * ((u.den * v.num) * ww)) == (m.num * ((u.num * v.den) * ww))
                    * i.den,
        {}
        assert(ww != 0) by (nonlinear_arith)
            requires
                w.den > 0,
                w.num > 0,
                ww == w.den * w.num,
        {}
        lemma_cancel_mul(
            i.num * (m.den * (u.den * v.num)),
            (m.num * (u.num * v.den)) * i.den,
            ww,
        );
        assert(m.den * (u.den * v.num) != 0) by (nonlinear_arith)
            requires
                m.den > 0,
                u.den > 0,
                v.num > 0,
        {}
        lemma_eqv_pair_trans(
            d.pair(),
            ((m.num * (u.num * v.den)), (m.den * (u.den * v.num))),
            i.pair(),
        );
    }
}

/// The magnitude order is total.
pub proof fn lemma_le_mag_total(a: Option<Rat>, b: Option<Rat>)
    requires
        mag_wf(a),
        mag_wf(b),
    ensures
        le_mag(a, b) || le_mag(b, a),
{
}

/// Two magnitudes each at most the other are worth the same value.
pub proof fn lemma_le_mag_antisymm(a: Option<Rat>, b: Option<Rat>)
    requires
        mag_wf(a),
        mag_wf(b),
        le_mag(a, b),
        le_mag(b, a),
    ensures
        eqv_mag(a, b),
{
}

/// The magnitude order is transitive.
pub proof fn lemma_le_mag_trans(a: Option<Rat>, b: Option<Rat>, c: Option<Rat>)
    requires
        mag_wf(a),
        mag_wf(b),
        mag_wf(c),
        le_mag(a, b),
        le_mag(b, c),
    ensures
        le_mag(a, c),
{
    match (a, b, c) {
        (Some(x), Some(y), Some(z)) => {
            assert((x.num * z.den) * y.den <= (z.num * x.den) * y.den) by (nonlinear_arith)
                requires
                    x.num * y.den <= y.num * x.den,
                    y.num * z.den <= z.num * y.den,
                    x.den > 0,
                    y.den > 0,
                    z.den > 0,
            {}
            assert(le_pair(x.pair(), z.pair())) by (nonlinear_arith)
                requires
                    (x.num * z.den) * y.den <= (z.num * x.den) * y.den,
                    y.den > 0,
            {}
        },
        _ => {},
    }
}

/// The non-finite magnitude is the greatest element of the order.
pub proof fn lemma_le_mag_none_greatest(a: Option<Rat>)
    requires
        mag_wf(a),
    ensures
        le_mag(a, None),
{
}

/// Round-trip conversion: converting a length to another unit and back
/// returns the exact starting value, whenever both conversions stay
/// representable. The same argument applies verbatim to every family
/// whose conversion is a single ratio scaling.
pub proof fn lemma_length_round_trip<A: LengthUnit, B: LengthUnit>(x: Length<A>)
    requires
        x.wf(),
        x.finite(),
    ensures
        ({
            let there = spec_scale(x.mag(), A::spec_ratio(), B::spec_ratio());
            let back = spec_scale(there, B::spec_ratio(), A::spec_ratio());
            back is Some ==> eqv_mag(back, x.mag())
        }),
{
    A::ratio_props();
    B::ratio_props();
    lemma_scale_round_trip(x.mag()->0, A::spec_ratio(), B::spec_ratio());
}

/// Conversion composition: converting a length straight to a third unit
/// agrees with converting by way of an intermediate unit, whenever both
/// paths stay representable.
pub proof fn lemma_length_conversion_compose<A: LengthUnit, B: LengthUnit, C: LengthUnit>(
    x: Length<A>,
)
    requires
        x.wf(),
        x.finite(),
    ensures
        ({
            let direct = spec_scale(x.mag(), A::spec_ratio(), B::spec_ratio());
            let via = spec_scale(
                spec_scale(x.mag(), A::spec_ratio(), C::spec_ratio()),
                C::spec_ratio(),
                B::spec_ratio(),
            );
            (direct is Some && via is Some) ==> eqv_mag(direct, via)
        }),
{
    A::ratio_props();
    B::ratio_props();
    C::ratio_props();
    lemma_scale_compose(x.mag()->0, A::spec_ratio(), B::spec_ratio(), C::spec_ratio());
}

/// Same-unit addition of lengths is commutative, exactly; with mixed
/// units the two sums are expressed in different units and are related by
/// the conversion laws above instead.
pub proof fn lemma_length_add_comm<A: LengthUnit>(x: Length<A>, y: Length<A>)
    requires
        x.wf(),
        y.wf(),
    ensures
        spec_add(x.mag(), y.mag()) == spec_add(y.mag(), x.mag()),
{
    lemma_add_comm(x.mag(), y.mag());
}

/// Same-unit addition of lengths is associative up to exact value
/// equality, whenever both groupings stay representable.
pub proof fn lemma_length_add_assoc<A: LengthUnit>(x: Length<A>, y: Length<A>, z: Length<A>)
    requires
        x.wf(),
        y.wf(),
        z.wf(),
    ensures
        (spec_add(spec_add(x.mag(), y.mag()), z.mag()) is Some && spec_add(
            x.mag(),
            spec_add(y.mag(), z.mag()),
        ) is Some) ==> eqv_mag(
            spec_add(spec_add(x.mag(), y.mag()), z.mag()),
            spec_add(x.mag(), spec_add(y.mag(), z.mag())),
        ),
{
    lemma_add_assoc(x.mag(), y.mag(), z.mag());
}

/// Round-trip conversion for a two-slot quantity: converting a velocity
/// to other units and back returns the exact starting value, whenever
/// every step stays representable.
#[verifier::rlimit(50)]
pub proof fn lemma_velocity_round_trip<LA: LengthUnit, TA: TimeUnit, LB: LengthUnit, TB: TimeUnit>(
    x: Velocity<LA, TA>,
)
    requires
        x.wf(),
        x.finite(),
    ensures
        ({
            let there = spec_scale(
                spec_scale(x.mag(), LA::spec_ratio(), LB::spec_ratio()),
                TB::spec_ratio(),
                TA::spec_ratio(),
            );
            let back = spec_scale(
                spec_scale(there, LB::spec_ratio(), LA::spec_ratio()),
                TA::spec_ratio(),
                TB::spec_ratio(),
            );
            back is Some ==> eqv_mag(back, x.mag())
        }),
{
    LA::ratio_props();
    LB::ratio_props();
    TA::ratio_props();
    TB::ratio_props();
    let m = x.mag()->0;
    let la = LA::spec_ratio();
    let lb = LB::spec_ratio();
    let ta = TA::spec_ratio();
    let tb = TB::spec_ratio();
    let s1 = spec_scale(x.mag(), la, lb);
    let s2 = spec_scale(s1, tb, ta);
    let s3 = spec_scale(s2, lb, la);
    let s4 = spec_scale(s3, ta, tb);
    if s4 is Some {
        let r1 = s1->0;
        let r2 = s2->0;
        let r3 = s3->0;
        let r4 = s4->0;
        lemma_scale_value(m, la, lb);
        lemma_scale_wf(m, la, lb);
        lemma_scale_value(r1, tb, ta);
        lemma_scale_wf(r1, tb, ta);
        lemma_scale_value(r2, lb, la);
        lemma_scale_wf(r2, lb, la);
        lemma_scale_value(r3, ta, tb);
        lemma_scale_chain(
            (m.num as int, m.den as int),
            r1.pair(),
            r2.pair(),
            (la.num * lb.den, la.den * lb.num),
            (tb.num * ta.den, tb.den * ta.num),
        );
        lemma_scale_chain(
            (m.num as int, m.den as int),
            r2.pair(),
            r3.pair(),
            ((la.num * lb.den) * (tb.num * ta.den), (la.den * lb.num) * (tb.den * ta.num)),
            (lb.num * la.den, lb.den * la.num),
        );
        lemma_scale_chain(
            (m.num as int, m.den as int),
            r3.pair(),
            r4.pair(),
            (((la.num * lb.den) * (tb.num * ta.den)) * (lb.num * la.den), ((la.den * lb.num) * (
            tb.den * ta.num)) * (lb.den * la.num)),
            (ta.num * tb.den, ta.den * tb.num),
        );
        // The combined scale fraction has equal numerator and denominator.
        let k = (((la.num * lb.den) * (tb.num * ta.den)) * (lb.num * la.den)) * (ta.num * tb.den);
        assert((((la.den * lb.num) * (tb.den * ta.num)) * (lb.den * la.num)) * (ta.den * tb.num)
            == k) by (nonlinear_arith)
            requires
                k == (((la.num * lb.den) * (tb.num * ta.den)) * (lb.num * la.den)) * (ta.num
                    * tb.den),
        {}
        assert(k != 0) by (nonlinear_arith)
            requires
                la.num > 0,
                lb.den > 0,
                tb.num > 0,
                ta.den > 0,
                lb.num > 0,
                la.den > 0,
                ta.num > 0,
                tb.den > 0,
                k == (((la.num * lb.den) * (tb.num * ta.den)) * (lb.num * la.den)) * (ta.num
                    * tb.den),
        {}
        assert((r4.num * m.den) * k == (m.num * r4.den) * k) by (nonlinear_arith)
            requires
                r4.num * (m.den * k) == (m.num * k) * r4.den,
                k == (((la.num * lb.den) * (tb.num * ta.den)) * (lb.num * la.den)) * (ta.num
                    * tb.den),
        {}
        lemma_cancel_mul(r4.num * m.den, m.num * r4.den, k);
    }
}

/// Round-trip conversion for the affine temperature family: mapping a
/// temperature onto kelvin and back returns the exact starting value,
/// whenever every step stays representable.
pub proof fn lemma_temperature_round_trip<U: TemperatureUnit>(x: Temperature<U>)
    requires
        x.wf(),
        x.finite(),
    ensures
        ({
            let k = spec_to_kelvin(x.mag(), U::spec_scale(), U::spec_offset());
            let back = spec_from_kelvin(k, U::spec_scale(), U::spec_offset());
            back is Some ==> eqv_mag(back, x.mag())
        }),
{
    U::scale_props();
    let m = x.mag()->0;
    let s = U::spec_scale();
    let o = U::spec_offset();
    let t1m = spec_mul(x.mag(), Some(s));
    let t2m = spec_add(t1m, Some(o));
    let t3m = spec_sub(t2m, Some(o));
    let t4m = spec_div(t3m, Some(s));
    if t4m is Some {
        let t1 = t1m->0;
        let t2 = t2m->0;
        let t3 = t3m->0;
        let t4 = t4m->0;
        lemma_norm_pair(m.num * s.num, m.den * s.den);
        lemma_norm_pair(t1.num * o.den + o.num * t1.den, t1.den * o.den);
        lemma_norm_pair(t2.num * o.den - o.num * t2.den, t2.den * o.den);
        lemma_norm_pair(t3.num * s.den, t3.den * s.num);
        // Subtracting the offset undoes adding it: t1 is worth what the
        // subtraction t3 computes from t2, so t3 and t1 agree exactly.
        assert(t1.num * (t2.den * o.den) == (t2.num * o.den - o.num * t2.den) * t1.den)
            by (nonlinear_arith)
            requires
                t2.num * (t1.den * o.den) == (t1.num * o.den + o.num * t1.den) * t2.den,
        {}
        assert(t2.den * o.den != 0) by (nonlinear_arith)
            requires
                t2.den > 0,
                o.den > 0,
        {}
        lemma_eqv_pair_trans(
            t3.pair(),
            (t2.num * o.den - o.num * t2.den, t2.den * o.den),
            t1.pair(),
        );
        // Dividing by the scale undoes multiplying by it: both t4 and m
        // are worth t1 over s.
        assert(m.num * (t1.den * s.num) == (t1.num * s.den) * m.den) by (nonlinear_arith)
            requires
                t1.num * (m.den * s.den) == (m.num * s.num) * t1.den,
        {}
        assert((t4.num * (t1.den * s.num)) * t3.den == (t4.num * (t3.den * s.num)) * t1.den)
            by (nonlinear_arith) {}
        assert(((t3.num * s.den) * t4.den) * t1.den == ((t3.num * t1.den) * s.den) * t4.den)
            by (nonlinear_arith) {}
        assert(((t1.num * t3.den) * s.den) * t4.den == ((t1.num * s.den) * t4.den) * t3.den)
            by (nonlinear_arith) {}
        assert((t4.num * (t1.den * s.num)) * t3.den == ((t1.num * s.den) * t4.den) * t3.den);
        lemma_cancel_mul(t4.num * (t1.den * s.num), (t1.num * s.den) * t4.den, t3.den as int);
        assert(t1.den * s.num != 0) by (nonlinear_arith)
            requires
                t1.den > 0,
                s.num > 0,
        {}
        lemma_eqv_pair_trans(t4.pair(), (t1.num * s.den, t1.den * s.num), m.pair());
    }
}

} // verus!
