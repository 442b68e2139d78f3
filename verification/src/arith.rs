//! Sums and differences of quantities.
//!
//! Both saturate: a result beyond the range of the raw integer is the nearest
//! end of that range. Nothing wraps and nothing panics.

use crate::FixedPoint;
use crate::Spec;
use core::ops::Add;
use core::ops::AddAssign;
use core::ops::Sub;
use core::ops::SubAssign;
use vstd::prelude::*;
use vstd::std_specs::ops::AddSpec;
use vstd::std_specs::ops::SubSpec;

verus! {

/// A sum or difference, held to the range of the raw integer.
pub open spec fn saturated(value: int) -> i32 {
    if value > i32::MAX {
        i32::MAX
    } else if value < i32::MIN {
        i32::MIN
    } else {
        value as i32
    }
}

impl<R: Spec> Add for FixedPoint<R> {
    type Output = Self;

    /// The sum of two quantities, saturating.
    fn add(self, rhs: Self) -> (sum: Self)
        ensures
            sum@ == saturated(self@ + rhs@),
    {
        let lhs = self.to_raw();
        let rhs = rhs.to_raw();
        let raw = match lhs.checked_add(rhs) {
            Some(raw) => raw,
            None => if rhs > 0 {
                i32::MAX
            } else {
                i32::MIN
            },
        };
        Self::from_raw(raw)
    }
}

impl<R: Spec> vstd::std_specs::ops::AddSpecImpl for FixedPoint<R> {
    open spec fn obeys_add_spec() -> bool {
        true
    }

    open spec fn add_req(self, rhs: Self) -> bool {
        true
    }

    open spec fn add_spec(self, rhs: Self) -> Self {
        Self::of(saturated(self@ + rhs@))
    }
}

impl<R: Spec> Sub for FixedPoint<R> {
    type Output = Self;

    /// The difference of two quantities, saturating.
    fn sub(self, rhs: Self) -> (difference: Self)
        ensures
            difference@ == saturated(self@ - rhs@),
    {
        let lhs = self.to_raw();
        let rhs = rhs.to_raw();
        let raw = match lhs.checked_sub(rhs) {
            Some(raw) => raw,
            None => if rhs < 0 {
                i32::MAX
            } else {
                i32::MIN
            },
        };
        Self::from_raw(raw)
    }
}

impl<R: Spec> vstd::std_specs::ops::SubSpecImpl for FixedPoint<R> {
    open spec fn obeys_sub_spec() -> bool {
        true
    }

    open spec fn sub_req(self, rhs: Self) -> bool {
        true
    }

    open spec fn sub_spec(self, rhs: Self) -> Self {
        Self::of(saturated(self@ - rhs@))
    }
}

impl<R: Spec> AddAssign for FixedPoint<R> {
    /// Replaces the quantity by its saturating sum with `rhs`.
    fn add_assign(&mut self, rhs: Self)
        ensures
            *final(self) == Self::of(saturated(old(self)@ + rhs@)),
            final(self)@ == saturated(old(self)@ + rhs@),
    {
        *self = *self + rhs;
    }
}

impl<R: Spec> SubAssign for FixedPoint<R> {
    /// Replaces the quantity by its saturating difference with `rhs`.
    fn sub_assign(&mut self, rhs: Self)
        ensures
            *final(self) == Self::of(saturated(old(self)@ - rhs@)),
            final(self)@ == saturated(old(self)@ - rhs@),
    {
        *self = *self - rhs;
    }
}

/// A saturated result never leaves the range of the raw integer. It is the
/// exact result wherever that lies in the range, and the nearer end of the
/// range everywhere else.
pub proof fn lemma_saturated_clamps(value: int)
    ensures
        i32::MIN <= saturated(value) <= i32::MAX,
        i32::MIN <= value <= i32::MAX ==> saturated(value) == value,
        value > i32::MAX ==> saturated(value) == i32::MAX,
        value < i32::MIN ==> saturated(value) == i32::MIN,
{
}

/// Nothing wraps at the ends of the range. The largest quantity added to
/// itself is still the largest and the smallest added to itself still the
/// smallest, in every unit, and the difference of the two extremes is the one
/// on the left.
pub proof fn lemma_extremes_stay<R: Spec>()
    ensures
        FixedPoint::<R>::of(i32::MAX).add_spec(FixedPoint::<R>::of(i32::MAX)) == FixedPoint::<R>::of(
            i32::MAX,
        ),
        FixedPoint::<R>::of(i32::MIN).add_spec(FixedPoint::<R>::of(i32::MIN)) == FixedPoint::<R>::of(
            i32::MIN,
        ),
        FixedPoint::<R>::of(i32::MIN).sub_spec(FixedPoint::<R>::of(i32::MAX)) == FixedPoint::<R>::of(
            i32::MIN,
        ),
        FixedPoint::<R>::of(i32::MAX).sub_spec(FixedPoint::<R>::of(i32::MIN)) == FixedPoint::<R>::of(
            i32::MAX,
        ),
{
    FixedPoint::<R>::lemma_raw_round_trip(i32::MAX);
    FixedPoint::<R>::lemma_raw_round_trip(i32::MIN);
}

/// A quantity at the top of the range stays there whatever is added to it
/// that is not negative, and one at the bottom stays there whatever is added
/// that is not positive.
pub proof fn lemma_sum_stays_at_extreme<R: Spec>(a: FixedPoint<R>, b: FixedPoint<R>)
    ensures
        a@ == i32::MAX && b@ >= 0 ==> a.add_spec(b) == FixedPoint::<R>::of(i32::MAX),
        a@ == i32::MIN && b@ <= 0 ==> a.add_spec(b) == FixedPoint::<R>::of(i32::MIN),
{
}

} // verus!
