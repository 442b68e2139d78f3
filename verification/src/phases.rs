//! Readings of a three-phase circuit, each of which may be absent.
//!
//! A phase that is out of service has no reading, which is not the same as a
//! reading of zero. Where readings are combined, an absent one leaves the other
//! as it is: it does not count as zero, and it never is the largest or the
//! smallest.

use core::cmp::Ordering;
use core::ops::Add;
use core::ops::AddAssign;
use core::ops::Mul;
use core::ops::MulAssign;
use core::ops::Neg;
use core::ops::Sub;
use core::ops::SubAssign;
use vstd::prelude::*;
use vstd::std_specs::cmp::PartialOrdSpec;
use vstd::std_specs::ops::AddSpec;
use vstd::std_specs::ops::MulSpec;
use vstd::std_specs::ops::NegSpec;
use vstd::std_specs::ops::SubSpec;

verus! {

/// One reading for each of the three phases, each present or absent.
#[derive(Debug, Copy, PartialEq, Eq)]
pub struct PhasesOpt<T>(pub Option<T>, pub Option<T>, pub Option<T>);

/// One for a present reading, nothing for an absent one.
pub open spec fn present<T>(slot: Option<T>) -> nat {
    if slot is Some {
        1
    } else {
        0
    }
}

/// Whether `copy` is a clone of a reading: a clone of the value for a present
/// reading, and absent for an absent one.
pub open spec fn is_clone<T: Clone>(slot: Option<T>, copy: Option<T>) -> bool {
    match slot {
        Some(value) => copy is Some && cloned(value, copy->0),
        None => copy is None,
    }
}

/// Whether `sum` is the sum of two readings: what `T` gives for two present
/// readings, and the other reading where one is absent.
pub open spec fn is_sum<T: Add<Output = T>>(lhs: Option<T>, rhs: Option<T>, sum: Option<T>) -> bool {
    match (lhs, rhs) {
        (Some(a), Some(b)) => sum is Some && call_ensures(T::add, (a, b), sum->0),
        (Some(a), None) => sum == lhs,
        (None, Some(b)) => sum == rhs,
        (None, None) => sum is None,
    }
}

/// The sum of two readings, for a `T` whose addition is specified.
pub open spec fn spec_add_opt<T: Add<Output = T>>(lhs: Option<T>, rhs: Option<T>) -> Option<T> {
    match (lhs, rhs) {
        (Some(a), Some(b)) => Some(a.add_spec(b)),
        (Some(a), None) => Some(a),
        (None, Some(b)) => Some(b),
        (None, None) => None,
    }
}

/// Whether the sum of two readings can be taken: two present readings must be
/// ones that `T` can add.
pub open spec fn add_opt_req<T: Add<Output = T>>(lhs: Option<T>, rhs: Option<T>) -> bool {
    lhs is Some && rhs is Some ==> lhs->0.add_req(rhs->0)
}

/// Whether `difference` is the difference of two readings: what `T` gives for
/// two present readings, the left reading where the right one is absent, and
/// what `T` gives for the right reading negated where the left one is absent.
pub open spec fn is_difference<T: Neg<Output = T> + Sub<Output = T>>(
    lhs: Option<T>,
    rhs: Option<T>,
    difference: Option<T>,
) -> bool {
    match (lhs, rhs) {
        (Some(a), Some(b)) => difference is Some && call_ensures(T::sub, (a, b), difference->0),
        (Some(a), None) => difference == lhs,
        (None, Some(b)) => difference is Some && call_ensures(T::neg, (b,), difference->0),
        (None, None) => difference is None,
    }
}

/// The difference of two readings, for a `T` whose subtraction and negation
/// are specified.
pub open spec fn spec_sub_opt<T: Neg<Output = T> + Sub<Output = T>>(
    lhs: Option<T>,
    rhs: Option<T>,
) -> Option<T> {
    match (lhs, rhs) {
        (Some(a), Some(b)) => Some(a.sub_spec(b)),
        (Some(a), None) => Some(a),
        (None, Some(b)) => Some(b.neg_spec()),
        (None, None) => None,
    }
}

/// Whether the difference of two readings can be taken: `T` must be able to
/// subtract two present readings, and to negate a right side that stands
/// alone.
pub open spec fn sub_opt_req<T: Neg<Output = T> + Sub<Output = T>>(
    lhs: Option<T>,
    rhs: Option<T>,
) -> bool {
    match (lhs, rhs) {
        (Some(a), Some(b)) => a.sub_req(b),
        (None, Some(b)) => b.neg_req(),
        _ => true,
    }
}

/// Whether `product` is a reading times a factor: what `T` gives for a present
/// reading, and absent for an absent one.
pub open spec fn is_product<S, T: Mul<S, Output = T>>(
    lhs: Option<T>,
    rhs: S,
    product: Option<T>,
) -> bool {
    match lhs {
        Some(a) => product is Some && call_ensures(T::mul, (a, rhs), product->0),
        None => product is None,
    }
}

/// A reading times a factor, for a `T` whose multiplication is specified.
pub open spec fn spec_mul_opt<S, T: Mul<S, Output = T>>(lhs: Option<T>, rhs: S) -> Option<T> {
    match lhs {
        Some(a) => Some(a.mul_spec(rhs)),
        None => None,
    }
}

/// Whether a reading can be multiplied by a factor.
pub open spec fn mul_opt_req<S, T: Mul<S, Output = T>>(lhs: Option<T>, rhs: S) -> bool {
    lhs is Some ==> lhs->0.mul_req(rhs)
}

/// Whether `largest` is the larger of two readings: the left one where `T`
/// finds the right one to be less, the right one where it does not, and the
/// other reading where one is absent.
pub open spec fn is_larger<T: Ord>(lhs: Option<T>, rhs: Option<T>, largest: Option<T>) -> bool {
    match (lhs, rhs) {
        (Some(a), Some(b)) => exists|less: bool| #[trigger]
            call_ensures(T::lt, (&b, &a), less) && largest == if less {
                lhs
            } else {
                rhs
            },
        (Some(a), None) => largest == lhs,
        (None, Some(b)) => largest == rhs,
        (None, None) => largest is None,
    }
}

/// The larger of two readings, for a `T` whose order is specified.
pub open spec fn spec_max_opt<T: Ord>(lhs: Option<T>, rhs: Option<T>) -> Option<T> {
    match (lhs, rhs) {
        (Some(a), Some(b)) => if b.partial_cmp_spec(&a) == Some(Ordering::Less) {
            Some(a)
        } else {
            Some(b)
        },
        (Some(a), None) => Some(a),
        (None, Some(b)) => Some(b),
        (None, None) => None,
    }
}

/// Whether `smallest` is the smaller of two readings: the right one where `T`
/// finds it to be less than the left one, the left one where it does not, and
/// the other reading where one is absent.
pub open spec fn is_smaller<T: Ord>(lhs: Option<T>, rhs: Option<T>, smallest: Option<T>) -> bool {
    match (lhs, rhs) {
        (Some(a), Some(b)) => exists|less: bool| #[trigger]
            call_ensures(T::lt, (&b, &a), less) && smallest == if less {
                rhs
            } else {
                lhs
            },
        (Some(a), None) => smallest == lhs,
        (None, Some(b)) => smallest == rhs,
        (None, None) => smallest is None,
    }
}

/// The smaller of two readings, for a `T` whose order is specified.
pub open spec fn spec_min_opt<T: Ord>(lhs: Option<T>, rhs: Option<T>) -> Option<T> {
    match (lhs, rhs) {
        (Some(a), Some(b)) => if b.partial_cmp_spec(&a) == Some(Ordering::Less) {
            Some(b)
        } else {
            Some(a)
        },
        (Some(a), None) => Some(a),
        (None, Some(b)) => Some(b),
        (None, None) => None,
    }
}

/// The sum of two readings, where an absent one leaves the other as it is.
pub fn add_opt<T>(lhs: Option<T>, rhs: Option<T>) -> (sum: Option<T>) where T: Add<T, Output = T>
    requires
        add_opt_req(lhs, rhs),
    ensures
        is_sum(lhs, rhs, sum),
        T::obeys_add_spec() ==> sum == spec_add_opt(lhs, rhs),
{
    match (lhs, rhs) {
        (Some(a), Some(b)) => Some(a.add(b)),
        (Some(a), None) => Some(a),
        (None, Some(b)) => Some(b),
        (None, None) => None,
    }
}

/// The difference of two readings. An absent right side leaves the left side
/// as it is. An absent left side gives the right side negated.
pub fn sub_opt<T>(lhs: Option<T>, rhs: Option<T>) -> (difference: Option<T>) where
    T: Neg<Output = T> + Sub<T, Output = T>,

    requires
        sub_opt_req(lhs, rhs),
    ensures
        is_difference(lhs, rhs, difference),
        T::obeys_sub_spec() && T::obeys_neg_spec() ==> difference == spec_sub_opt(lhs, rhs),
{
    match (lhs, rhs) {
        (Some(a), Some(b)) => Some(a.sub(b)),
        (Some(a), None) => Some(a),
        (None, Some(b)) => Some(b.neg()),
        (None, None) => None,
    }
}

/// A reading times a factor. An absent reading stays absent.
pub fn mul_opt<S, T>(lhs: Option<T>, rhs: S) -> (product: Option<T>) where T: Mul<S, Output = T>
    requires
        mul_opt_req(lhs, rhs),
    ensures
        is_product(lhs, rhs, product),
        T::obeys_mul_spec() ==> product == spec_mul_opt(lhs, rhs),
{
    match lhs {
        Some(a) => Some(a.mul(rhs)),
        None => None,
    }
}

/// The larger of two readings. An absent reading is never the larger one, and
/// of two equal readings the right one is returned.
pub fn max_opt<T>(lhs: Option<T>, rhs: Option<T>) -> (largest: Option<T>) where T: Ord
    ensures
        is_larger(lhs, rhs, largest),
        T::obeys_partial_cmp_spec() ==> largest == spec_max_opt(lhs, rhs),
{
    match (lhs, rhs) {
        (Some(a), Some(b)) => if b < a {
            Some(a)
        } else {
            Some(b)
        },
        (Some(a), None) => Some(a),
        (None, Some(b)) => Some(b),
        (None, None) => None,
    }
}

/// The smaller of two readings. An absent reading is never the smaller one,
/// and of two equal readings the left one is returned.
pub fn min_opt<T>(lhs: Option<T>, rhs: Option<T>) -> (smallest: Option<T>) where T: Ord
    ensures
        is_smaller(lhs, rhs, smallest),
        T::obeys_partial_cmp_spec() ==> smallest == spec_min_opt(lhs, rhs),
{
    match (lhs, rhs) {
        (Some(a), Some(b)) => if b < a {
            Some(b)
        } else {
            Some(a)
        },
        (Some(a), None) => Some(a),
        (None, Some(b)) => Some(b),
        (None, None) => None,
    }
}

impl<T> PhasesOpt<T> {
    /// The number of phases that have a reading.
    pub open spec fn spec_count(&self) -> nat {
        present(self.0) + present(self.1) + present(self.2)
    }

    /// The number of phases that have a reading.
    pub fn count(&self) -> (n: usize)
        ensures
            n == self.spec_count(),
            n <= 3,
    {
        let first: usize = if self.0.is_some() {
            1
        } else {
            0
        };
        let second: usize = if self.1.is_some() {
            1
        } else {
            0
        };
        let third: usize = if self.2.is_some() {
            1
        } else {
            0
        };
        first + second + third
    }
}

impl<T> PhasesOpt<T> where T: Add<T, Output = T> {
    /// Whether `total` is the sum of the readings that are present: the first
    /// phase added to the sum of the second and the third.
    pub open spec fn is_total(self, total: Option<T>) -> bool {
        exists|inner: Option<T>| #[trigger]
            is_sum(self.1, self.2, inner) && is_sum(self.0, inner, total)
    }

    /// The sum of the readings that are present, for a `T` whose addition is
    /// specified.
    pub open spec fn spec_sum(self) -> Option<T> {
        spec_add_opt(self.0, spec_add_opt(self.1, self.2))
    }

    /// Whether the readings can be summed: `T` must be able to add the second
    /// to the third, and the first to whatever that gives.
    pub open spec fn sum_req(self) -> bool {
        &&& add_opt_req(self.1, self.2)
        &&& forall|inner: Option<T>| #[trigger]
            is_sum(self.1, self.2, inner) ==> add_opt_req(self.0, inner)
    }

    /// The sum of the readings that are present, or `None` where none is.
    pub fn sum(self) -> (total: Option<T>)
        requires
            self.sum_req(),
        ensures
            self.is_total(total),
            T::obeys_add_spec() ==> total == self.spec_sum(),
            total is None <==> self.spec_count() == 0,
    {
        add_opt(self.0, add_opt(self.1, self.2))
    }
}

impl<T> PhasesOpt<T> where T: Ord {
    /// Whether `largest` is the largest reading: the first phase against the
    /// larger of the second and the third.
    pub open spec fn is_max(self, largest: Option<T>) -> bool {
        exists|inner: Option<T>| #[trigger]
            is_larger(self.1, self.2, inner) && is_larger(self.0, inner, largest)
    }

    /// Whether `smallest` is the smallest reading: the first phase against the
    /// smaller of the second and the third.
    pub open spec fn is_min(self, smallest: Option<T>) -> bool {
        exists|inner: Option<T>| #[trigger]
            is_smaller(self.1, self.2, inner) && is_smaller(self.0, inner, smallest)
    }

    /// The largest reading, for a `T` whose order is specified.
    pub open spec fn spec_max(self) -> Option<T> {
        spec_max_opt(self.0, spec_max_opt(self.1, self.2))
    }

    /// The smallest reading, for a `T` whose order is specified.
    pub open spec fn spec_min(self) -> Option<T> {
        spec_min_opt(self.0, spec_min_opt(self.1, self.2))
    }

    /// The largest of the readings that are present, or `None` where none is.
    pub fn max(self) -> (largest: Option<T>)
        ensures
            self.is_max(largest),
            T::obeys_partial_cmp_spec() ==> largest == self.spec_max(),
            largest is None <==> self.spec_count() == 0,
            largest == self.0 || largest == self.1 || largest == self.2,
    {
        max_opt(self.0, max_opt(self.1, self.2))
    }

    /// The smallest of the readings that are present, or `None` where none is.
    pub fn min(self) -> (smallest: Option<T>)
        ensures
            self.is_min(smallest),
            T::obeys_partial_cmp_spec() ==> smallest == self.spec_min(),
            smallest is None <==> self.spec_count() == 0,
            smallest == self.0 || smallest == self.1 || smallest == self.2,
    {
        min_opt(self.0, min_opt(self.1, self.2))
    }
}

impl<T: Clone> Clone for PhasesOpt<T> {
    fn clone(&self) -> (copy: Self)
        ensures
            is_clone(self.0, copy.0),
            is_clone(self.1, copy.1),
            is_clone(self.2, copy.2),
    {
        PhasesOpt(self.0.clone(), self.1.clone(), self.2.clone())
    }
}

impl<T> Default for PhasesOpt<T> {
    /// Three absent readings.
    fn default() -> (phases: Self)
        ensures
            phases == PhasesOpt::<T>(None, None, None),
    {
        PhasesOpt(None, None, None)
    }
}

impl<T: Add<T, Output = T>> Add<PhasesOpt<T>> for PhasesOpt<T> {
    type Output = Self;

    /// The sums of the readings, phase by phase.
    fn add(self, rhs: Self) -> (sum: Self)
        ensures
            is_sum(self.0, rhs.0, sum.0),
            is_sum(self.1, rhs.1, sum.1),
            is_sum(self.2, rhs.2, sum.2),
    {
        PhasesOpt(add_opt(self.0, rhs.0), add_opt(self.1, rhs.1), add_opt(self.2, rhs.2))
    }
}

impl<T: Add<T, Output = T>> vstd::std_specs::ops::AddSpecImpl<PhasesOpt<T>> for PhasesOpt<T> {
    open spec fn obeys_add_spec() -> bool {
        T::obeys_add_spec()
    }

    open spec fn add_req(self, rhs: Self) -> bool {
        &&& add_opt_req(self.0, rhs.0)
        &&& add_opt_req(self.1, rhs.1)
        &&& add_opt_req(self.2, rhs.2)
    }

    open spec fn add_spec(self, rhs: Self) -> Self {
        PhasesOpt(
            spec_add_opt(self.0, rhs.0),
            spec_add_opt(self.1, rhs.1),
            spec_add_opt(self.2, rhs.2),
        )
    }
}

impl<T: Neg<Output = T> + Sub<T, Output = T>> Sub<PhasesOpt<T>> for PhasesOpt<T> {
    type Output = Self;

    /// The differences of the readings, phase by phase.
    fn sub(self, rhs: Self) -> (difference: Self)
        ensures
            is_difference(self.0, rhs.0, difference.0),
            is_difference(self.1, rhs.1, difference.1),
            is_difference(self.2, rhs.2, difference.2),
    {
        PhasesOpt(sub_opt(self.0, rhs.0), sub_opt(self.1, rhs.1), sub_opt(self.2, rhs.2))
    }
}

impl<T: Neg<Output = T> + Sub<T, Output = T>> vstd::std_specs::ops::SubSpecImpl<PhasesOpt<T>> for PhasesOpt<T> {
    open spec fn obeys_sub_spec() -> bool {
        T::obeys_neg_spec() && T::obeys_sub_spec()
    }

    open spec fn sub_req(self, rhs: Self) -> bool {
        &&& sub_opt_req(self.0, rhs.0)
        &&& sub_opt_req(self.1, rhs.1)
        &&& sub_opt_req(self.2, rhs.2)
    }

    open spec fn sub_spec(self, rhs: Self) -> Self {
        PhasesOpt(
            spec_sub_opt(self.0, rhs.0),
            spec_sub_opt(self.1, rhs.1),
            spec_sub_opt(self.2, rhs.2),
        )
    }
}

impl<S: Copy, T: Mul<S, Output = T>> Mul<S> for PhasesOpt<T> {
    type Output = Self;

    /// The readings that are present, each times `rhs`.
    fn mul(self, rhs: S) -> (product: Self)
        ensures
            is_product(self.0, rhs, product.0),
            is_product(self.1, rhs, product.1),
            is_product(self.2, rhs, product.2),
    {
        PhasesOpt(mul_opt(self.0, rhs), mul_opt(self.1, rhs), mul_opt(self.2, rhs))
    }
}

impl<S: Copy, T: Mul<S, Output = T>> vstd::std_specs::ops::MulSpecImpl<S> for PhasesOpt<T> {
    open spec fn obeys_mul_spec() -> bool {
        T::obeys_mul_spec()
    }

    open spec fn mul_req(self, rhs: S) -> bool {
        &&& mul_opt_req(self.0, rhs)
        &&& mul_opt_req(self.1, rhs)
        &&& mul_opt_req(self.2, rhs)
    }

    open spec fn mul_spec(self, rhs: S) -> Self {
        PhasesOpt(
            spec_mul_opt(self.0, rhs),
            spec_mul_opt(self.1, rhs),
            spec_mul_opt(self.2, rhs),
        )
    }
}

impl<T> AddAssign<PhasesOpt<T>> for PhasesOpt<T> where T: Add<T, Output = T> + Copy {
    /// Replaces the readings by their sums with those of `rhs`.
    fn add_assign(&mut self, rhs: PhasesOpt<T>)
        requires
            old(self).add_req(rhs),
        ensures
            T::obeys_add_spec() ==> *final(self) == old(self).add_spec(rhs),
            is_sum(old(self).0, rhs.0, final(self).0),
            is_sum(old(self).1, rhs.1, final(self).1),
            is_sum(old(self).2, rhs.2, final(self).2),
    {
        *self = *self + rhs;
    }
}

impl<T> SubAssign<PhasesOpt<T>> for PhasesOpt<T> where
    T: Neg<Output = T> + Sub<T, Output = T> + Copy,
 {
    /// Replaces the readings by their differences with those of `rhs`.
    fn sub_assign(&mut self, rhs: PhasesOpt<T>)
        requires
            old(self).sub_req(rhs),
        ensures
            T::obeys_neg_spec() && T::obeys_sub_spec() ==> *final(self) == old(self).sub_spec(rhs),
            is_difference(old(self).0, rhs.0, final(self).0),
            is_difference(old(self).1, rhs.1, final(self).1),
            is_difference(old(self).2, rhs.2, final(self).2),
    {
        *self = *self - rhs;
    }
}

impl<S: Copy, T> MulAssign<S> for PhasesOpt<T> where T: Mul<S, Output = T> + Copy {
    /// Replaces the readings that are present by their products with `rhs`.
    fn mul_assign(&mut self, rhs: S)
        requires
            old(self).mul_req(rhs),
        ensures
            T::obeys_mul_spec() ==> *final(self) == old(self).mul_spec(rhs),
            is_product(old(self).0, rhs, final(self).0),
            is_product(old(self).1, rhs, final(self).1),
            is_product(old(self).2, rhs, final(self).2),
    {
        *self = *self * rhs;
    }
}

/// An absent reading is the identity of every fold: added to, or compared
/// with, a reading, it gives that reading back, present or absent, and
/// nothing else. Taken from a reading, it leaves that reading as it is.
pub proof fn lemma_absent_is_identity<T: Ord + Add<Output = T> + Sub<Output = T> + Neg<Output = T>>(
    reading: Option<T>,
    result: Option<T>,
)
    ensures
        is_sum(None, reading, result) <==> result == reading,
        is_sum(reading, None, result) <==> result == reading,
        is_larger(None, reading, result) <==> result == reading,
        is_larger(reading, None, result) <==> result == reading,
        is_smaller(None, reading, result) <==> result == reading,
        is_smaller(reading, None, result) <==> result == reading,
        is_difference(reading, None, result) <==> result == reading,
        spec_add_opt(None, reading) == reading,
        spec_add_opt(reading, None) == reading,
        spec_max_opt(None, reading) == reading,
        spec_max_opt(reading, None) == reading,
        spec_min_opt(None, reading) == reading,
        spec_min_opt(reading, None) == reading,
        spec_sub_opt(reading, None) == reading,
{
}

/// A fold over three phases is absent exactly where all three readings are,
/// and where a single reading is present, that reading is the sum, the largest
/// and the smallest.
pub proof fn lemma_folds_skip_absent<T: Ord + Add<Output = T>>(
    phases: PhasesOpt<T>,
    result: Option<T>,
)
    requires
        phases.is_total(result) || phases.is_max(result) || phases.is_min(result),
    ensures
        phases.spec_count() <= 3,
        result is None <==> phases.spec_count() == 0,
        phases.1 is None && phases.2 is None ==> result == phases.0,
        phases.0 is None && phases.2 is None ==> result == phases.1,
        phases.0 is None && phases.1 is None ==> result == phases.2,
{
}

/// The largest and the smallest reading are readings: one of the three that
/// went in.
pub proof fn lemma_extreme_is_a_reading<T: Ord>(phases: PhasesOpt<T>, result: Option<T>)
    requires
        phases.is_max(result) || phases.is_min(result),
    ensures
        result == phases.0 || result == phases.1 || result == phases.2,
{
}

} // verus!
