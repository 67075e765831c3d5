//! A payload ordered by its priority key, in reverse.
use std::cmp::Ordering;
use vstd::laws_cmp::{obeys_cmp_ord, obeys_cmp_partial_ord, obeys_partial_cmp_spec_properties};
use vstd::laws_eq::{obeys_eq, obeys_eq_spec_properties};
use vstd::prelude::*;
use vstd::std_specs::cmp::{OrdSpec, PartialEqSpec, PartialOrdSpec};

verus! {

/// A value `v` with a priority `p`.
///
/// Two pairs are compared by their priorities alone, and in the opposite
/// direction: the pair with the greater priority is the lesser pair. The
/// value takes no part in any comparison and needs no order of its own.
pub struct PV<P, V> {
    pub p: P,
    pub v: V,
}

impl<P: PartialEq, V> PartialEq for PV<P, V> {
    fn eq(&self, other: &PV<P, V>) -> (r: bool)
        ensures
            P::obeys_eq_spec() ==> r == other.p.eq_spec(&self.p),
    {
        other.p == self.p
    }
}

impl<P: Eq, V> Eq for PV<P, V> {}

impl<P: PartialEq, V> vstd::std_specs::cmp::PartialEqSpecImpl for PV<P, V> {
    open spec fn obeys_eq_spec() -> bool {
        P::obeys_eq_spec()
    }

    open spec fn eq_spec(&self, other: &PV<P, V>) -> bool {
        other.p.eq_spec(&self.p)
    }
}

impl<P: PartialOrd, V> PartialOrd for PV<P, V> {
    fn partial_cmp(&self, other: &PV<P, V>) -> (r: Option<Ordering>)
        ensures
            P::obeys_partial_cmp_spec() ==> r == other.p.partial_cmp_spec(&self.p),
    {
        other.p.partial_cmp(&self.p)
    }
}

impl<P: PartialOrd, V> vstd::std_specs::cmp::PartialOrdSpecImpl for PV<P, V> {
    open spec fn obeys_partial_cmp_spec() -> bool {
        P::obeys_partial_cmp_spec()
    }

    open spec fn partial_cmp_spec(&self, other: &PV<P, V>) -> Option<Ordering> {
        other.p.partial_cmp_spec(&self.p)
    }
}

impl<P: Ord, V> PV<P, V> {
    /// Compares two pairs by their priorities, with the operands exchanged.
    /// Where the total and the partial order of the priorities agree, so do
    /// those of the pairs.
    pub fn cmp(&self, other: &PV<P, V>) -> (r: Ordering)
        ensures
            P::obeys_cmp_spec() ==> r == other.p.cmp_spec(&self.p),
            obeys_cmp_ord::<P>() ==> Some(r) == self.partial_cmp_spec(other),
    {
        proof {
            reveal(obeys_cmp_ord);
        }
        other.p.cmp(&self.p)
    }
}

/// Equality of pairs ignores the values: whatever the two values are, the
/// pairs are equal exactly when the priorities are. Pairs of one priority
/// that equals itself are therefore equal, however their values differ.
pub proof fn lemma_eq_ignores_value<P: PartialEq, V>(p: P, v: V, q: P, w: V)
    ensures
        (PV { p, v }).eq_spec(&(PV { p: q, v: w })) == q.eq_spec(&p),
        p.eq_spec(&p) ==> (PV { p, v }).eq_spec(&(PV { p, v: w })),
{
}

/// The order of pairs ignores the values: whatever the two values are, the
/// pairs compare as the priorities do with the operands exchanged.
pub proof fn lemma_order_ignores_value<P: PartialOrd, V>(p: P, v: V, q: P, w: V)
    ensures
        (PV { p, v }).partial_cmp_spec(&(PV { p: q, v: w })) == q.partial_cmp_spec(&p),
{
}

/// The order of pairs is the order of the priorities reversed: where `p`
/// is less than `q`, the pair of `q` is less than the pair of `p`,
/// whatever the values. Where the order of the priorities is lawful, the
/// pair of `p` is also greater than the pair of `q`.
pub proof fn lemma_reversed<P: PartialOrd, V>(p: P, v: V, q: P, w: V)
    requires
        p.partial_cmp_spec(&q) == Some(Ordering::Less),
    ensures
        (PV { p: q, v: w }).partial_cmp_spec(&(PV { p, v })) == Some(Ordering::Less),
        obeys_partial_cmp_spec_properties::<P>() ==> (PV { p, v }).partial_cmp_spec(
            &(PV { p: q, v: w }),
        ) == Some(Ordering::Greater),
{
    reveal(obeys_partial_cmp_spec_properties);
}

/// Pairs inherit the laws of an equality and of an order from their
/// priorities.
pub proof fn lemma_pairs_obey_order_laws<P: PartialOrd, V>()
    requires
        obeys_eq::<P>(),
        obeys_cmp_partial_ord::<P>(),
        obeys_partial_cmp_spec_properties::<P>(),
    ensures
        obeys_eq::<PV<P, V>>(),
        obeys_cmp_partial_ord::<PV<P, V>>(),
        obeys_partial_cmp_spec_properties::<PV<P, V>>(),
{
    reveal(obeys_eq_spec_properties);
    reveal(obeys_cmp_partial_ord);
    reveal(obeys_partial_cmp_spec_properties);
}

} // verus!
