//! The replay guard: the set of payment identifiers that have been spent.

use vstd::hash_set::StringHashSet;
use vstd::prelude::*;

verus! {

broadcast use vstd::hash_set::group_hash_set_axioms;

/// The identifiers of the payments that were reserved since the guard was
/// made. An identifier enters at most once and never leaves.
pub struct ReplayGuard {
    consumed: StringHashSet,
}

impl View for ReplayGuard {
    type V = Set<Seq<char>>;

    closed spec fn view(&self) -> Set<Seq<char>> {
        self.consumed@
    }
}

impl ReplayGuard {
    /// A guard that has seen no payment yet.
    pub fn new() -> (guard: ReplayGuard)
        ensures
            guard@ == Set::<Seq<char>>::empty(),
    {
        ReplayGuard { consumed: StringHashSet::new() }
    }

    /// Claims `payment_id` in one step: `true` exactly when the identifier was
    /// not yet present, and it is present afterwards either way.
    pub fn try_reserve(&mut self, payment_id: &str) -> (fresh: bool)
        ensures
            fresh == !old(self)@.contains(payment_id@),
            final(self)@ == old(self)@.insert(payment_id@),
            old(self)@.finite() ==> final(self)@.finite() && final(self)@.len() == old(self)@.len()
                + if fresh { 1nat } else { 0nat },
    {
        self.consumed.insert(payment_id.to_owned())
    }

    /// Whether `payment_id` was reserved before.
    pub fn is_consumed(&self, payment_id: &str) -> (spent: bool)
        ensures
            spent == self@.contains(payment_id@),
    {
        self.consumed.contains(payment_id)
    }

    /// How many identifiers were reserved so far.
    pub fn count(&self) -> (n: usize)
        ensures
            n == self@.len(),
    {
        self.consumed.len()
    }
}

} // verus!
