use vstd::prelude::*;
use vstd::multiset::Multiset;
use crate::bag::{
    bag_clone, bag_contains, bag_elems, bag_eq, bag_insert, bag_len, bag_new, bag_remove,
    bag_take_all, bag_view,
};
use crate::rational::{mag_add, mag_div, mag_mul, mag_sub, mag_wf, spec_add, spec_div, spec_mul,
    spec_sub, Rat};
use crate::units::{Unit, UnitId};

verus! {

broadcast use {vstd::multiset::group_multiset_axioms, vstd::seq_lib::group_to_multiset_ensures};

/// The smaller of two multiplicities.
pub open spec fn nmin(a: nat, b: nat) -> nat {
    if a <= b {
        a
    } else {
        b
    }
}

/// Multiplicity of `u` on one side of a signature after cancellation: the
/// dimensionless radians identity is dropped outright, and every other
/// identity keeps whatever multiplicity the opposite side cannot absorb.
pub open spec fn cancel_count(a: Multiset<UnitId>, b: Multiset<UnitId>, u: UnitId) -> nat {
    if u == UnitId::Radians {
        0
    } else if a.count(u) >= b.count(u) {
        (a.count(u) - b.count(u)) as nat
    } else {
        0
    }
}

/// A magnitude together with the multisets of unit identities it carries
/// in its numerator and denominator. Computation chains whose dimension
/// the static algebra cannot track run through this type and are checked
/// against a concrete signature before they are accepted back.
pub struct DynamicUnits {
    v: Option<Rat>,
    numerator: hashbag::HashBag<UnitId>,
    denominator: hashbag::HashBag<UnitId>,
}

impl DynamicUnits {
    /// The magnitude carried through the chain.
    pub closed spec fn mag(self) -> Option<Rat> {
        self.v
    }

    /// The numerator signature.
    pub closed spec fn nums(self) -> Multiset<UnitId> {
        bag_view(self.numerator)
    }

    /// The denominator signature.
    pub closed spec fn dens(self) -> Multiset<UnitId> {
        bag_view(self.denominator)
    }

    pub open spec fn wf(self) -> bool {
        mag_wf(self.mag())
    }

    /// The permissive signature check against an explicit target
    /// signature: after cancelling both, the target's residue must be
    /// contained in this signature's residue, and what is left beyond the
    /// target must cancel internally, numerator against denominator,
    /// exactly.
    pub open spec fn sig_match(self, tnums: Multiset<UnitId>, tdens: Multiset<UnitId>) -> bool {
        forall|u: UnitId|
            {
                let sn = cancel_count(self.nums(), self.dens(), u);
                let sd = cancel_count(self.dens(), self.nums(), u);
                let tn = cancel_count(tnums, tdens, u);
                let td = cancel_count(tdens, tnums, u);
                #[trigger] trig(u) ==> tn <= sn && td <= sd && sn - tn == sd - td
            }
    }

    /// The check of `assert_units_equal`, against another chain's
    /// signature.
    pub open spec fn units_match(self, target: DynamicUnits) -> bool {
        self.sig_match(target.nums(), target.dens())
    }

    /// Whether the signature cancels away completely: the check used when
    /// a chain is accepted back as a dimensionless scalar.
    pub open spec fn units_empty(self) -> bool {
        forall|u: UnitId|
            #[trigger] trig(u) ==> cancel_count(self.nums(), self.dens(), u) == 0 && cancel_count(
                self.dens(),
                self.nums(),
                u,
            ) == 0
    }

    pub fn magnitude(&self) -> (r: Option<Rat>)
        ensures
            r == self.mag(),
    {
        self.v
    }

    /// A dimensionless signature.
    pub fn new0o0(m: Option<Rat>) -> (r: Self)
        requires
            mag_wf(m),
        ensures
            r.mag() == m,
            r.nums() == Multiset::<UnitId>::empty(),
            r.dens() == Multiset::<UnitId>::empty(),
            r.wf(),
    {
        DynamicUnits { v: m, numerator: bag_new(), denominator: bag_new() }
    }

    /// One numerator identity.
    pub fn new1o0<N0: Unit>(m: Option<Rat>) -> (r: Self)
        requires
            mag_wf(m),
        ensures
            r.mag() == m,
            r.nums() == Multiset::<UnitId>::empty().insert(N0::spec_id()),
            r.dens() == Multiset::<UnitId>::empty(),
            r.wf(),
    {
        let mut numerator = bag_new();
        bag_insert(&mut numerator, N0::id());
        proof {
            assert(bag_view(numerator) =~= Multiset::<UnitId>::empty().insert(N0::spec_id()));
        }
        DynamicUnits { v: m, numerator, denominator: bag_new() }
    }

    /// One numerator and one denominator identity.
    pub fn new1o1<N0: Unit, D0: Unit>(m: Option<Rat>) -> (r: Self)
        requires
            mag_wf(m),
        ensures
            r.mag() == m,
            r.nums() == Multiset::<UnitId>::empty().insert(N0::spec_id()),
            r.dens() == Multiset::<UnitId>::empty().insert(D0::spec_id()),
            r.wf(),
    {
        let mut numerator = bag_new();
        bag_insert(&mut numerator, N0::id());
        let mut denominator = bag_new();
        bag_insert(&mut denominator, D0::id());
        proof {
            assert(bag_view(numerator) =~= Multiset::<UnitId>::empty().insert(N0::spec_id()));
            assert(bag_view(denominator) =~= Multiset::<UnitId>::empty().insert(D0::spec_id()));
        }
        DynamicUnits { v: m, numerator, denominator }
    }

    /// One numerator and two denominator identities.
    pub fn new1o2<N0: Unit, D0: Unit, D1: Unit>(m: Option<Rat>) -> (r: Self)
        requires
            mag_wf(m),
        ensures
            r.mag() == m,
            r.nums() == Multiset::<UnitId>::empty().insert(N0::spec_id()),
            r.dens() == Multiset::<UnitId>::empty().insert(D0::spec_id()).insert(D1::spec_id()),
            r.wf(),
    {
        let mut numerator = bag_new();
        bag_insert(&mut numerator, N0::id());
        let mut denominator = bag_new();
        bag_insert(&mut denominator, D0::id());
        bag_insert(&mut denominator, D1::id());
        proof {
            assert(bag_view(numerator) =~= Multiset::<UnitId>::empty().insert(N0::spec_id()));
            assert(bag_view(denominator) =~= Multiset::<UnitId>::empty().insert(
                D0::spec_id(),
            ).insert(D1::spec_id()));
        }
        DynamicUnits { v: m, numerator, denominator }
    }

    /// One numerator and three denominator identities.
    pub fn new1o3<N0: Unit, D0: Unit, D1: Unit, D2: Unit>(m: Option<Rat>) -> (r: Self)
        requires
            mag_wf(m),
        ensures
            r.mag() == m,
            r.nums() == Multiset::<UnitId>::empty().insert(N0::spec_id()),
            r.dens() == Multiset::<UnitId>::empty().insert(D0::spec_id()).insert(
                D1::spec_id(),
            ).insert(D2::spec_id()),
            r.wf(),
    {
        let mut numerator = bag_new();
        bag_insert(&mut numerator, N0::id());
        let mut denominator = bag_new();
        bag_insert(&mut denominator, D0::id());
        bag_insert(&mut denominator, D1::id());
        bag_insert(&mut denominator, D2::id());
        proof {
            assert(bag_view(numerator) =~= Multiset::<UnitId>::empty().insert(N0::spec_id()));
            assert(bag_view(denominator) =~= Multiset::<UnitId>::empty().insert(
                D0::spec_id(),
            ).insert(D1::spec_id()).insert(D2::spec_id()));
        }
        DynamicUnits { v: m, numerator, denominator }
    }

    /// Two numerator identities.
    pub fn new2o0<N0: Unit, N1: Unit>(m: Option<Rat>) -> (r: Self)
        requires
            mag_wf(m),
        ensures
            r.mag() == m,
            r.nums() == Multiset::<UnitId>::empty().insert(N0::spec_id()).insert(N1::spec_id()),
            r.dens() == Multiset::<UnitId>::empty(),
            r.wf(),
    {
        let mut numerator = bag_new();
        bag_insert(&mut numerator, N0::id());
        bag_insert(&mut numerator, N1::id());
        proof {
            assert(bag_view(numerator) =~= Multiset::<UnitId>::empty().insert(
                N0::spec_id(),
            ).insert(N1::spec_id()));
        }
        DynamicUnits { v: m, numerator, denominator: bag_new() }
    }

    /// Two numerator and two denominator identities.
    pub fn new2o2<N0: Unit, N1: Unit, D0: Unit, D1: Unit>(m: Option<Rat>) -> (r: Self)
        requires
            mag_wf(m),
        ensures
            r.mag() == m,
            r.nums() == Multiset::<UnitId>::empty().insert(N0::spec_id()).insert(N1::spec_id()),
            r.dens() == Multiset::<UnitId>::empty().insert(D0::spec_id()).insert(D1::spec_id()),
            r.wf(),
    {
        let mut numerator = bag_new();
        bag_insert(&mut numerator, N0::id());
        bag_insert(&mut numerator, N1::id());
        let mut denominator = bag_new();
        bag_insert(&mut denominator, D0::id());
        bag_insert(&mut denominator, D1::id());
        proof {
            assert(bag_view(numerator) =~= Multiset::<UnitId>::empty().insert(
                N0::spec_id(),
            ).insert(N1::spec_id()));
            assert(bag_view(denominator) =~= Multiset::<UnitId>::empty().insert(
                D0::spec_id(),
            ).insert(D1::spec_id()));
        }
        DynamicUnits { v: m, numerator, denominator }
    }

    /// Three numerator identities.
    pub fn new3o0<N0: Unit, N1: Unit, N2: Unit>(m: Option<Rat>) -> (r: Self)
        requires
            mag_wf(m),
        ensures
            r.mag() == m,
            r.nums() == Multiset::<UnitId>::empty().insert(N0::spec_id()).insert(
                N1::spec_id(),
            ).insert(N2::spec_id()),
            r.dens() == Multiset::<UnitId>::empty(),
            r.wf(),
    {
        let mut numerator = bag_new();
        bag_insert(&mut numerator, N0::id());
        bag_insert(&mut numerator, N1::id());
        bag_insert(&mut numerator, N2::id());
        proof {
            assert(bag_view(numerator) =~= Multiset::<UnitId>::empty().insert(
                N0::spec_id(),
            ).insert(N1::spec_id()).insert(N2::spec_id()));
        }
        DynamicUnits { v: m, numerator, denominator: bag_new() }
    }

    /// Three numerator and two denominator identities.
    pub fn new3o2<N0: Unit, N1: Unit, N2: Unit, D0: Unit, D1: Unit>(m: Option<Rat>) -> (r: Self)
        requires
            mag_wf(m),
        ensures
            r.mag() == m,
            r.nums() == Multiset::<UnitId>::empty().insert(N0::spec_id()).insert(
                N1::spec_id(),
            ).insert(N2::spec_id()),
            r.dens() == Multiset::<UnitId>::empty().insert(D0::spec_id()).insert(D1::spec_id()),
            r.wf(),
    {
        let mut numerator = bag_new();
        bag_insert(&mut numerator, N0::id());
        bag_insert(&mut numerator, N1::id());
        bag_insert(&mut numerator, N2::id());
        let mut denominator = bag_new();
        bag_insert(&mut denominator, D0::id());
        bag_insert(&mut denominator, D1::id());
        proof {
            assert(bag_view(numerator) =~= Multiset::<UnitId>::empty().insert(
                N0::spec_id(),
            ).insert(N1::spec_id()).insert(N2::spec_id()));
            assert(bag_view(denominator) =~= Multiset::<UnitId>::empty().insert(
                D0::spec_id(),
            ).insert(D1::spec_id()));
        }
        DynamicUnits { v: m, numerator, denominator }
    }
}

/// Trigger carrier for the per-identity quantifiers of this module.
pub open spec fn trig(u: UnitId) -> bool {
    true
}

impl Clone for DynamicUnits {
    fn clone(&self) -> (r: Self)
        ensures
            r.mag() == self.mag(),
            r.nums() == self.nums(),
            r.dens() == self.dens(),
    {
        DynamicUnits {
            v: self.v,
            numerator: bag_clone(&self.numerator),
            denominator: bag_clone(&self.denominator),
        }
    }
}

/// Pour every entry of `src` into `dst`, keeping multiplicities.
fn bag_extend(dst: &mut hashbag::HashBag<UnitId>, src: &hashbag::HashBag<UnitId>)
    ensures
        forall|u: UnitId| #[trigger] bag_view(*final(dst)).count(u) == bag_view(
            *old(dst),
        ).count(u) + bag_view(*src).count(u),
{
    let items = bag_elems(src);
    let ghost base = bag_view(*dst);
    let mut i: usize = 0;
    while i < items.len()
        invariant
            i <= items.len(),
            items@.to_multiset() == bag_view(*src),
            forall|u: UnitId| #[trigger] bag_view(*dst).count(u) == base.count(u) + items@.take(
                i as int,
            ).to_multiset().count(u),
        decreases items.len() - i,
    {
        proof {
            assert(items@.take(i as int + 1) =~= items@.take(i as int).push(items@[i as int]));
        }
        bag_insert(dst, items[i]);
        i = i + 1;
    }
    proof {
        assert(items@.take(items.len() as int) =~= items@);
    }
}

impl DynamicUnits {
    /// Product: magnitudes multiply and both signature sides concatenate.
    pub fn mul(self, rhs: DynamicUnits) -> (r: DynamicUnits)
        requires
            self.wf(),
            rhs.wf(),
        ensures
            r.wf(),
            r.mag() == spec_mul(self.mag(), rhs.mag()),
            forall|u: UnitId| #[trigger] r.nums().count(u) == self.nums().count(u)
                + rhs.nums().count(u),
            forall|u: UnitId| #[trigger] r.dens().count(u) == self.dens().count(u)
                + rhs.dens().count(u),
    {
        let DynamicUnits { v, mut numerator, mut denominator } = self;
        bag_extend(&mut numerator, &rhs.numerator);
        bag_extend(&mut denominator, &rhs.denominator);
        DynamicUnits { v: mag_mul(&v, &rhs.v), numerator, denominator }
    }

    /// Quotient: magnitudes divide and the divisor's sides swap in.
    pub fn div(self, rhs: DynamicUnits) -> (r: DynamicUnits)
        requires
            self.wf(),
            rhs.wf(),
        ensures
            r.wf(),
            r.mag() == spec_div(self.mag(), rhs.mag()),
            forall|u: UnitId| #[trigger] r.nums().count(u) == self.nums().count(u)
                + rhs.dens().count(u),
            forall|u: UnitId| #[trigger] r.dens().count(u) == self.dens().count(u)
                + rhs.nums().count(u),
    {
        let DynamicUnits { v, mut numerator, mut denominator } = self;
        bag_extend(&mut numerator, &rhs.denominator);
        bag_extend(&mut denominator, &rhs.numerator);
        DynamicUnits { v: mag_div(&v, &rhs.v), numerator, denominator }
    }

    /// Sum. Dynamic signatures carry no conversion ratios, so the two
    /// operands' signatures must already be identical, exactly.
    pub fn add(self, rhs: DynamicUnits) -> (r: DynamicUnits)
        requires
            self.wf(),
            rhs.wf(),
            self.nums() == rhs.nums(),
            self.dens() == rhs.dens(),
        ensures
            r.wf(),
            r.mag() == spec_add(self.mag(), rhs.mag()),
            r.nums() == self.nums(),
            r.dens() == self.dens(),
    {
        let DynamicUnits { v, numerator, denominator } = self;
        DynamicUnits { v: mag_add(&v, &rhs.v), numerator, denominator }
    }

    /// Difference, under the same exact-signature demand as `add`.
    pub fn sub(self, rhs: DynamicUnits) -> (r: DynamicUnits)
        requires
            self.wf(),
            rhs.wf(),
            self.nums() == rhs.nums(),
            self.dens() == rhs.dens(),
        ensures
            r.wf(),
            r.mag() == spec_sub(self.mag(), rhs.mag()),
            r.nums() == self.nums(),
            r.dens() == self.dens(),
    {
        let DynamicUnits { v, numerator, denominator } = self;
        DynamicUnits { v: mag_sub(&v, &rhs.v), numerator, denominator }
    }

    /// Cancel the signature: drop the radians identity from both sides,
    /// then pair off each denominator entry against a matching numerator
    /// entry, leaving only the residue on each side.
    pub fn cancel_units(&mut self)
        ensures
            final(self).mag() == old(self).mag(),
            forall|u: UnitId| #[trigger] final(self).nums().count(u) == cancel_count(
                old(self).nums(),
                old(self).dens(),
                u,
            ),
            forall|u: UnitId| #[trigger] final(self).dens().count(u) == cancel_count(
                old(self).dens(),
                old(self).nums(),
                u,
            ),
    {
        bag_take_all(&mut self.numerator, &UnitId::Radians);
        bag_take_all(&mut self.denominator, &UnitId::Radians);
        let ghost n0 = bag_view(self.numerator);
        let ghost d0 = bag_view(self.denominator);
        let items = bag_elems(&self.denominator);
        let mut residue = bag_new();
        let mut i: usize = 0;
        while i < items.len()
            invariant
                i <= items.len(),
                items@.to_multiset() == d0,
                self.v == old(self).v,
                forall|u: UnitId| #[trigger] bag_view(self.numerator).count(u) == n0.count(u)
                    - nmin(n0.count(u), items@.take(i as int).to_multiset().count(u)),
                forall|u: UnitId| #[trigger] bag_view(residue).count(u) == items@.take(
                    i as int,
                ).to_multiset().count(u) - nmin(
                    n0.count(u),
                    items@.take(i as int).to_multiset().count(u),
                ),
            decreases items.len() - i,
        {
            proof {
                assert(items@.take(i as int + 1) =~= items@.take(i as int).push(items@[i as int]));
            }
            let u = items[i];
            if bag_contains(&self.numerator, &u) > 0 {
                bag_remove(&mut self.numerator, &u);
            } else {
                bag_insert(&mut residue, u);
            }
            i = i + 1;
        }
        proof {
            assert(items@.take(items.len() as int) =~= items@);
        }
        self.denominator = residue;
    }

    /// The runtime form of the signature check: cancel both signatures,
    /// remove the target's residue from this one, and test that whatever
    /// is left cancels internally. Returns exactly `units_match`.
    pub fn units_equal(&self, target: &DynamicUnits) -> (r: bool)
        ensures
            r == self.units_match(*target),
    {
        let mut a = self.clone();
        a.cancel_units();
        let mut t = target.clone();
        t.cancel_units();
        let ghost an = a.nums();
        let ghost ad = a.dens();
        let tn = bag_elems(&t.numerator);
        let mut i: usize = 0;
        while i < tn.len()
            invariant
                i <= tn.len(),
                tn@.to_multiset() == t.nums(),
                t.nums() == bag_view(t.numerator),
                a.dens() == ad,
                a.mag() == self.mag(),
                forall|u: UnitId| #[trigger] t.nums().count(u) == cancel_count(
                    target.nums(),
                    target.dens(),
                    u,
                ),
                forall|u: UnitId| #[trigger] t.dens().count(u) == cancel_count(
                    target.dens(),
                    target.nums(),
                    u,
                ),
                forall|u: UnitId| #[trigger] an.count(u) == cancel_count(
                    self.nums(),
                    self.dens(),
                    u,
                ),
                forall|u: UnitId| #[trigger] ad.count(u) == cancel_count(
                    self.dens(),
                    self.nums(),
                    u,
                ),
                forall|u: UnitId| #[trigger] tn@.take(i as int).to_multiset().count(u)
                    <= an.count(u),
                forall|u: UnitId| #[trigger] bag_view(a.numerator).count(u) == an.count(u)
                    - tn@.take(i as int).to_multiset().count(u),
            decreases tn.len() - i,
        {
            proof {
                assert(tn@.take(i as int + 1) =~= tn@.take(i as int).push(tn@[i as int]));
            }
            let u = tn[i];
            let had = bag_remove(&mut a.numerator, &u);
            if had == 0 {
                proof {
                    let ghost uu = u;
                    assert(tn@.to_multiset().count(uu) >= tn@.take(i as int).to_multiset().count(
                        uu,
                    ) + 1) by {
                        lemma_take_count_le(tn@, i as int, uu);
                    }
                    assert(t.nums().count(uu) > an.count(uu));
                    assert(!self.units_match(*target)) by {
                        assert(trig(uu));
                    }
                }
                return false;
            }
            i = i + 1;
        }
        proof {
            assert(tn@.take(tn.len() as int) =~= tn@);
        }
        let td = bag_elems(&t.denominator);
        let mut j: usize = 0;
        while j < td.len()
            invariant
                j <= td.len(),
                td@.to_multiset() == t.dens(),
                t.dens() == bag_view(t.denominator),
                t.nums() == bag_view(t.numerator),
                a.mag() == self.mag(),
                forall|u: UnitId| #[trigger] t.nums().count(u) == cancel_count(
                    target.nums(),
                    target.dens(),
                    u,
                ),
                forall|u: UnitId| #[trigger] t.dens().count(u) == cancel_count(
                    target.dens(),
                    target.nums(),
                    u,
                ),
                forall|u: UnitId| #[trigger] an.count(u) == cancel_count(
                    self.nums(),
                    self.dens(),
                    u,
                ),
                forall|u: UnitId| #[trigger] ad.count(u) == cancel_count(
                    self.dens(),
                    self.nums(),
                    u,
                ),
                forall|u: UnitId| #[trigger] t.nums().count(u) <= an.count(u),
                forall|u: UnitId| #[trigger] bag_view(a.numerator).count(u) == an.count(u)
                    - t.nums().count(u),
                forall|u: UnitId| #[trigger] td@.take(j as int).to_multiset().count(u)
                    <= ad.count(u),
                forall|u: UnitId| #[trigger] bag_view(a.denominator).count(u) == ad.count(u)
                    - td@.take(j as int).to_multiset().count(u),
            decreases td.len() - j,
        {
            proof {
                assert(td@.take(j as int + 1) =~= td@.take(j as int).push(td@[j as int]));
            }
            let u = td[j];
            let had = bag_remove(&mut a.denominator, &u);
            if had == 0 {
                proof {
                    let ghost uu = u;
                    assert(td@.to_multiset().count(uu) >= td@.take(j as int).to_multiset().count(
                        uu,
                    ) + 1) by {
                        lemma_take_count_le(td@, j as int, uu);
                    }
                    assert(t.dens().count(uu) > ad.count(uu));
                    assert(!self.units_match(*target)) by {
                        assert(trig(uu));
                    }
                }
                return false;
            }
            j = j + 1;
        }
        proof {
            assert(td@.take(td.len() as int) =~= td@);
        }
        let r = bag_eq(&a.numerator, &a.denominator);
        proof {
            if r {
                assert(self.units_match(*target)) by {
                    assert forall|u: UnitId| trig(u) implies {
                        let sn = cancel_count(self.nums(), self.dens(), u);
                        let sd = cancel_count(self.dens(), self.nums(), u);
                        let tnc = cancel_count(target.nums(), target.dens(), u);
                        let tdc = cancel_count(target.dens(), target.nums(), u);
                        tnc <= sn && tdc <= sd && sn - tnc == sd - tdc
                    } by {
                        assert(bag_view(a.numerator).count(u) == bag_view(a.denominator).count(u));
                    }
                }
            } else {
                assert(bag_view(a.numerator) !~= bag_view(a.denominator));
                let w = choose|u: UnitId|
                    bag_view(a.numerator).count(u) != bag_view(a.denominator).count(u);
                assert(!self.units_match(*target)) by {
                    assert(trig(w));
                }
            }
        }
        r
    }

    /// The runtime form of the emptiness check: cancel and test that both
    /// sides are empty. Returns exactly `units_empty`.
    pub fn units_are_empty(&self) -> (r: bool)
        ensures
            r == self.units_empty(),
    {
        let mut a = self.clone();
        a.cancel_units();
        let rn = bag_len(&a.numerator);
        let rd = bag_len(&a.denominator);
        let r = rn == 0 && rd == 0;
        proof {
            if r {
                assert forall|u: UnitId| trig(u) implies cancel_count(
                    self.nums(),
                    self.dens(),
                    u,
                ) == 0 && cancel_count(self.dens(), self.nums(), u) == 0 by {
                    assert(a.nums().count(u) <= a.nums().len());
                    assert(a.dens().count(u) <= a.dens().len());
                    assert(a.nums().len() == rn);
                    assert(a.dens().len() == rd);
                }
            } else {
                if rn != 0 {
                    assert(a.nums().len() > 0);
                    lemma_nonempty_count(a.nums());
                    let w = choose|u: UnitId| a.nums().count(u) > 0;
                    assert(a.nums().count(w) > 0);
                    assert(!self.units_empty()) by {
                        assert(trig(w));
                    }
                } else {
                    assert(a.dens().len() > 0);
                    lemma_nonempty_count(a.dens());
                    let w = choose|u: UnitId| a.dens().count(u) > 0;
                    assert(a.dens().count(w) > 0);
                    assert(!self.units_empty()) by {
                        assert(trig(w));
                    }
                }
            }
        }
        r
    }

    /// Consume a chain whose signature is statically known to match the
    /// target's. The runtime check of `units_equal` is not repeated here:
    /// the caller discharges the obligation once, by proof.
    pub fn assert_units_equal(self, target: DynamicUnits)
        requires
            self.units_match(target),
    {
    }

    /// Consume a chain statically known to be dimensionless.
    pub fn assert_units_empty(self)
        requires
            self.units_empty(),
    {
    }
}

/// A multiset with a positive length has an element with positive count.
proof fn lemma_nonempty_count(m: Multiset<UnitId>)
    requires
        m.len() > 0,
    ensures
        exists|u: UnitId| m.count(u) > 0,
{
    let u = m.choose();
    assert(m.count(u) > 0);
}

/// The count of an element in a prefix, plus one if the next element is
/// it, stays within its count in the whole sequence.
proof fn lemma_take_count_le(s: Seq<UnitId>, i: int, u: UnitId)
    requires
        0 <= i < s.len(),
        s[i] == u,
    ensures
        s.to_multiset().count(u) >= s.take(i).to_multiset().count(u) + 1,
{
    if i + 1 == s.len() {
        assert(s.take(i + 1) =~= s.take(i).push(s[i]));
        assert(s.take(i + 1) =~= s);
    } else {
        lemma_take_prefix_count(s, i + 1, u);
        assert(s.take(i + 1) =~= s.take(i).push(s[i]));
    }
}

/// A prefix of a sequence holds at most as many occurrences of any element
/// as the whole sequence.
proof fn lemma_take_prefix_count(s: Seq<UnitId>, i: int, u: UnitId)
    requires
        0 <= i <= s.len(),
    ensures
        s.take(i).to_multiset().count(u) <= s.to_multiset().count(u),
    decreases s.len() - i,
{
    if i == s.len() {
        assert(s.take(i) =~= s);
    } else {
        lemma_take_prefix_count(s, i + 1, u);
        assert(s.take(i + 1) =~= s.take(i).push(s[i]));
    }
}

} // verus!
