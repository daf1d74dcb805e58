use vstd::prelude::*;
use vstd::multiset::Multiset;
use crate::units::UnitId;

verus! {

// The dynamic signature engine stores its numerator and denominator
// multisets in `hashbag::HashBag`, a counting multiset keyed by hashing.
// The bag type is declared opaque below; each operation the engine calls
// gets a contract over `bag_view`, the multiset of identities a bag holds.
// A `HashBag` maps each stored value to a positive multiplicity and keeps
// the total count beside the map, which grounds every contract here.

#[verifier::external_type_specification]
#[verifier::external_body]
#[verifier::reject_recursive_types(T)]
#[verifier::reject_recursive_types(S)]
pub struct ExHashBag<T, S>(hashbag::HashBag<T, S>);

/// The multiset of unit identities a bag holds.
pub uninterp spec fn bag_view(b: hashbag::HashBag<UnitId>) -> Multiset<UnitId>;

/// Relies on hashbag::HashBag::new: a freshly created bag is empty.
#[verifier::external_body]
pub fn bag_new() -> (r: hashbag::HashBag<UnitId>)
    ensures
        bag_view(r) == Multiset::<UnitId>::empty(),
{
    hashbag::HashBag::new()
}

/// Relies on hashbag::HashBag::clone: the copy holds the same entries.
#[verifier::external_body]
pub fn bag_clone(b: &hashbag::HashBag<UnitId>) -> (r: hashbag::HashBag<UnitId>)
    ensures
        bag_view(r) == bag_view(*b),
{
    b.clone()
}

/// Relies on hashbag::HashBag::insert: one more occurrence of `v`, all
/// other multiplicities unchanged.
#[verifier::external_body]
pub fn bag_insert(b: &mut hashbag::HashBag<UnitId>, v: UnitId)
    ensures
        forall|u: UnitId| #[trigger] bag_view(*final(b)).count(u) == if u == v {
            bag_view(*old(b)).count(u) + 1
        } else {
            bag_view(*old(b)).count(u)
        },
{
    b.insert(v);
}

/// Relies on hashbag::HashBag::contains: the multiplicity of `v`.
#[verifier::external_body]
pub fn bag_contains(b: &hashbag::HashBag<UnitId>, v: &UnitId) -> (n: usize)
    ensures
        n == bag_view(*b).count(*v),
{
    b.contains(v)
}

/// Relies on hashbag::HashBag::remove: takes out one occurrence of `v` if
/// any is present, and returns the multiplicity `v` had before the call.
#[verifier::external_body]
pub fn bag_remove(b: &mut hashbag::HashBag<UnitId>, v: &UnitId) -> (n: usize)
    ensures
        n == bag_view(*old(b)).count(*v),
        forall|u: UnitId| #[trigger] bag_view(*final(b)).count(u) == if u == *v && bag_view(
            *old(b),
        ).count(u) > 0 {
            (bag_view(*old(b)).count(u) - 1) as nat
        } else {
            bag_view(*old(b)).count(u)
        },
{
    b.remove(v)
}

/// Relies on hashbag::HashBag::take_all: removes every occurrence of `v`.
#[verifier::external_body]
pub fn bag_take_all(b: &mut hashbag::HashBag<UnitId>, v: &UnitId)
    ensures
        forall|u: UnitId| #[trigger] bag_view(*final(b)).count(u) == if u == *v {
            0
        } else {
            bag_view(*old(b)).count(u)
        },
{
    let _ = b.take_all(v);
}

/// Relies on hashbag::HashBag::len: the number of entries, multiplicities
/// counted.
#[verifier::external_body]
pub fn bag_len(b: &hashbag::HashBag<UnitId>) -> (n: usize)
    ensures
        n == bag_view(*b).len(),
{
    b.len()
}

/// Relies on hashbag::HashBag::eq: bags are equal exactly when they hold
/// the same entries with the same multiplicities.
#[verifier::external_body]
pub fn bag_eq(a: &hashbag::HashBag<UnitId>, b: &hashbag::HashBag<UnitId>) -> (r: bool)
    ensures
        r == (bag_view(*a) == bag_view(*b)),
{
    a == b
}

/// Relies on hashbag::HashBag::iter: yields each entry as often as its
/// multiplicity, in no specified order; only the resulting multiset is
/// promised here.
#[verifier::external_body]
pub fn bag_elems(b: &hashbag::HashBag<UnitId>) -> (r: Vec<UnitId>)
    ensures
        r@.to_multiset() == bag_view(*b),
{
    b.iter().copied().collect()
}

} // verus!
