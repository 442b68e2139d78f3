//! Equality, ordering and the default of quantities.
//!
//! Two quantities of one unit are equal where their raw integers are equal, and
//! they are ordered as their raw integers are. The scale of a unit is positive,
//! so this is the order of the quantities themselves.

use crate::FixedPoint;
use crate::Spec;
use core::cmp::Ordering;
use vstd::prelude::*;
use vstd::std_specs::cmp::PartialEqSpec;
use vstd::std_specs::cmp::PartialOrdSpec;

verus! {

impl<R: Spec> Clone for FixedPoint<R> {
    fn clone(&self) -> (copy: Self)
        ensures
            copy == *self,
    {
        *self
    }
}

impl<R: Spec> Default for FixedPoint<R> {
    /// The quantity zero.
    fn default() -> (quantity: Self)
        ensures
            quantity == Self::of(0),
            quantity@ == 0,
    {
        Self::zero()
    }
}

impl<R: Spec> PartialEq for FixedPoint<R> {
    fn eq(&self, other: &Self) -> (equal: bool) {
        self.to_raw() == other.to_raw()
    }
}

impl<R: Spec> vstd::std_specs::cmp::PartialEqSpecImpl for FixedPoint<R> {
    open spec fn obeys_eq_spec() -> bool {
        true
    }

    open spec fn eq_spec(&self, other: &Self) -> bool {
        self@ == other@
    }
}

impl<R: Spec> PartialOrd for FixedPoint<R> {
    fn partial_cmp(&self, other: &Self) -> (order: Option<Ordering>) {
        let lhs = self.to_raw();
        let rhs = other.to_raw();
        if lhs < rhs {
            Some(Ordering::Less)
        } else if lhs > rhs {
            Some(Ordering::Greater)
        } else {
            Some(Ordering::Equal)
        }
    }
}

impl<R: Spec> vstd::std_specs::cmp::PartialOrdSpecImpl for FixedPoint<R> {
    open spec fn obeys_partial_cmp_spec() -> bool {
        true
    }

    open spec fn partial_cmp_spec(&self, other: &Self) -> Option<Ordering> {
        if self@ < other@ {
            Some(Ordering::Less)
        } else if self@ > other@ {
            Some(Ordering::Greater)
        } else {
            Some(Ordering::Equal)
        }
    }
}

/// Quantities of one unit are equal exactly where their raw integers are.
pub proof fn lemma_equal_by_raw<R: Spec>(a: FixedPoint<R>, b: FixedPoint<R>)
    ensures
        a == b <==> a@ == b@,
        a.eq_spec(&b) <==> a == b,
{
    a.lemma_raw_determines();
    b.lemma_raw_determines();
}

/// Quantities of one unit are ordered as their raw integers are, and any two
/// of them are ordered.
pub proof fn lemma_ordered_by_raw<R: Spec>(a: FixedPoint<R>, b: FixedPoint<R>)
    ensures
        a.partial_cmp_spec(&b) == Some(Ordering::Less) <==> a@ < b@,
        a.partial_cmp_spec(&b) == Some(Ordering::Greater) <==> a@ > b@,
        a.partial_cmp_spec(&b) == Some(Ordering::Equal) <==> a == b,
        a.partial_cmp_spec(&b) is Some,
{
    lemma_equal_by_raw(a, b);
}

} // verus!
