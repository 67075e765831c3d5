//! A priority key with a strict total order.
use crate::tiebreak::{fnv1a, thread_hash};
use std::cmp::Ordering;
use vstd::laws_cmp::{obeys_cmp_partial_ord, obeys_partial_cmp_spec_properties};
use vstd::laws_eq::{obeys_eq, obeys_eq_spec_properties};
use vstd::prelude::*;
use vstd::std_specs::cmp::{PartialEqSpec, PartialOrdSpec};

verus! {

/// A numeric priority together with a tiebreak that tells the submitting
/// threads apart.
///
/// Keys are ordered by priority first and by tiebreak second, so two keys
/// are equal only if both agree. The tiebreak is the hash of the thread's
/// identity: keys built for one thread share it, and keys built for two
/// threads differ in it unless the two identities collide under the hash.
/// Neither case is detected: a caller that needs the keys of one thread
/// told apart gives them different priorities.
#[derive(Clone, Copy, Ord)]
pub struct Prio {
    // The derived `cmp` compares the fields in this order, as `partial_cmp` does.
    prio: usize,
    thread_hash: u64,
}

impl Prio {
    /// The numeric priority that the key was built with.
    pub closed spec fn priority(self) -> usize {
        self.prio
    }

    /// The hash of the identity of the thread that the key was built for.
    pub closed spec fn tiebreak(self) -> u64 {
        self.thread_hash
    }

    /// Whether `self` comes strictly before `other`: its priority is lower,
    /// or the priorities are equal and its tiebreak is lower.
    pub open spec fn precedes(self, other: Prio) -> bool {
        self.priority() < other.priority() || (self.priority() == other.priority()
            && self.tiebreak() < other.tiebreak())
    }

    /// How `self` stands to `other` in the order of the keys.
    pub open spec fn compare(self, other: Prio) -> Ordering {
        if self.precedes(other) {
            Ordering::Less
        } else if other.precedes(self) {
            Ordering::Greater
        } else {
            Ordering::Equal
        }
    }

    /// Builds the key of priority `prio` for the thread that `thread_id`
    /// identifies. Any priority and any identity are accepted.
    pub fn new(prio: usize, thread_id: &[u8]) -> (key: Prio)
        ensures
            key.priority() == prio,
            key.tiebreak() == fnv1a(thread_id@),
    {
        Prio { prio, thread_hash: thread_hash(thread_id) }
    }
}

impl PartialEq for Prio {
    fn eq(&self, other: &Prio) -> (r: bool)
        ensures
            r == (self.priority() == other.priority() && self.tiebreak() == other.tiebreak()),
    {
        self.prio == other.prio && self.thread_hash == other.thread_hash
    }
}

impl Eq for Prio {}

impl vstd::std_specs::cmp::PartialEqSpecImpl for Prio {
    open spec fn obeys_eq_spec() -> bool {
        true
    }

    open spec fn eq_spec(&self, other: &Prio) -> bool {
        self.priority() == other.priority() && self.tiebreak() == other.tiebreak()
    }
}

impl PartialOrd for Prio {
    fn partial_cmp(&self, other: &Prio) -> (r: Option<Ordering>)
        ensures
            r == Some(self.compare(*other)),
    {
        match self.prio.cmp(&other.prio) {
            Ordering::Equal => Some(self.thread_hash.cmp(&other.thread_hash)),
            unequal => Some(unequal),
        }
    }
}

impl vstd::std_specs::cmp::PartialOrdSpecImpl for Prio {
    open spec fn obeys_partial_cmp_spec() -> bool {
        true
    }

    open spec fn partial_cmp_spec(&self, other: &Prio) -> Option<Ordering> {
        Some(self.compare(*other))
    }
}

/// Whether exactly one of three statements holds.
pub open spec fn exactly_one(x: bool, y: bool, z: bool) -> bool {
    (x && !y && !z) || (!x && y && !z) || (!x && !y && z)
}

/// The order of the keys is total: of any two keys, built for whatever
/// threads, exactly one of `a < b`, `a == b` and `b < a` holds. Equality of
/// keys is equality of both parts, and `a < b` is the same as `b > a`.
pub proof fn lemma_total(a: Prio, b: Prio)
    ensures
        exactly_one(
            a.partial_cmp_spec(&b) == Some(Ordering::Less),
            a.eq_spec(&b),
            b.partial_cmp_spec(&a) == Some(Ordering::Less),
        ),
        a.eq_spec(&b) <==> a == b,
        a.eq_spec(&b) <==> a.partial_cmp_spec(&b) == Some(Ordering::Equal),
        a.partial_cmp_spec(&b) == Some(Ordering::Less) <==> b.partial_cmp_spec(&a) == Some(
            Ordering::Greater,
        ),
{
}

/// The order of the keys is transitive.
pub proof fn lemma_transitive(a: Prio, b: Prio, c: Prio)
    requires
        a.partial_cmp_spec(&b) == Some(Ordering::Less),
        b.partial_cmp_spec(&c) == Some(Ordering::Less),
    ensures
        a.partial_cmp_spec(&c) == Some(Ordering::Less),
{
}

/// The order of the keys is antisymmetric: two keys neither of which comes
/// after the other are the same key.
pub proof fn lemma_antisymmetric(a: Prio, b: Prio)
    requires
        a.partial_cmp_spec(&b) != Some(Ordering::Greater),
        b.partial_cmp_spec(&a) != Some(Ordering::Greater),
    ensures
        a == b,
{
}

/// Keys built for one thread are ordered by their priorities alone: they
/// share the tiebreak, so equal priorities give equal keys, and differing
/// priorities order the keys as they order the numbers.
pub proof fn lemma_same_thread(a: Prio, b: Prio)
    requires
        a.tiebreak() == b.tiebreak(),
    ensures
        a.partial_cmp_spec(&b) == a.priority().partial_cmp_spec(&b.priority()),
        a.eq_spec(&b) <==> a.priority() == b.priority(),
{
}

/// Keys of equal priority built for two threads whose identities do not
/// collide under the hash are unequal, and ordered as their tiebreaks are.
pub proof fn lemma_cross_thread(a: Prio, b: Prio)
    requires
        a.priority() == b.priority(),
        a.tiebreak() != b.tiebreak(),
    ensures
        !a.eq_spec(&b),
        a.partial_cmp_spec(&b) == a.tiebreak().partial_cmp_spec(&b.tiebreak()),
        a.partial_cmp_spec(&b) == Some(Ordering::Less) || a.partial_cmp_spec(&b) == Some(
            Ordering::Greater,
        ),
{
}

/// The comparisons of the keys meet what `vstd` asks of an equality and of
/// an order.
pub proof fn lemma_keys_obey_order_laws()
    ensures
        obeys_eq::<Prio>(),
        obeys_cmp_partial_ord::<Prio>(),
        obeys_partial_cmp_spec_properties::<Prio>(),
{
    reveal(obeys_eq_spec_properties);
    reveal(obeys_cmp_partial_ord);
    reveal(obeys_partial_cmp_spec_properties);
}

} // verus!
