use vstd::prelude::*;
use crate::scalar::Scalar;
use crate::validity::IsValid;

verus! {

/// An interval between two numbers. Its bounds are not ordered: `min` may
/// exceed `max`.
#[derive(Clone, Copy, Debug)]
pub struct Interval {
    pub min: Scalar,
    pub max: Scalar,
}

impl Interval {
    pub open spec fn spec_mid(self) -> Scalar {
        self.min.spec_add(self.max.spec_sub(self.min).spec_div(Scalar::Finite((2 * crate::scalar::SCALE) as i64)))
    }

    /// `p` lies strictly between the two bounds, `min < p < max`.
    pub open spec fn spec_includes_parameter(self, p: Scalar) -> bool {
        self.min.spec_lt(p) && p.spec_lt(self.max)
    }

    /// An interval whose bounds are unset.
    pub fn unset() -> (r: Interval)
        ensures
            r == (Interval { min: Scalar::Unset, max: Scalar::Unset }),
    {
        Interval { min: Scalar::Unset, max: Scalar::Unset }
    }

    /// The interval [0, 0].
    pub fn zero() -> (r: Interval)
        ensures
            r == (Interval { min: Scalar::Finite(0), max: Scalar::Finite(0) }),
    {
        Interval { min: Scalar::zero(), max: Scalar::zero() }
    }

    pub fn new(min: Scalar, max: Scalar) -> (r: Interval)
        ensures
            r == (Interval { min, max }),
    {
        Interval { min, max }
    }

    /// The midpoint, `min + (max - min) / 2`.
    pub fn mid(&self) -> (r: Scalar)
        ensures
            r == self.spec_mid(),
    {
        self.min.add(self.max.sub(self.min).div(Scalar::two()))
    }

    /// True when `min > max`: the interval runs from its larger bound down.
    pub fn is_increasing(&self) -> (r: bool)
        ensures
            r == self.max.spec_lt(self.min),
    {
        self.min.gt(self.max)
    }

    /// True when `min < max`.
    pub fn is_decreasing(&self) -> (r: bool)
        ensures
            r == self.min.spec_lt(self.max),
    {
        self.min.lt(self.max)
    }

    /// The intersection: the greater of the minimums and the lesser of the
    /// maximums. Where the two are disjoint, the result has `min > max`.
    pub fn from_intersection(i1: Interval, i2: Interval) -> (r: Interval)
        ensures
            r == (Interval { min: i1.min.spec_max(i2.min), max: i1.max.spec_min(i2.max) }),
    {
        Interval::new(i1.min.max(i2.min), i1.max.min(i2.max))
    }

    /// The union: the lesser of the minimums and the greater of the maximums.
    pub fn from_union(i1: Interval, i2: Interval) -> (r: Interval)
        ensures
            r == (Interval { min: i1.min.spec_min(i2.min), max: i1.max.spec_max(i2.max) }),
    {
        Interval::new(i1.min.min(i2.min), i1.max.max(i2.max))
    }

    /// Both bounds of `i1` lie strictly inside `self`.
    pub fn includes(&self, i1: Interval) -> (r: bool)
        ensures
            r == (self.min.spec_lt(i1.min) && i1.max.spec_lt(self.max)),
    {
        i1.min.gt(self.min) && i1.max.lt(self.max)
    }

    /// `p` lies strictly inside: the bounds themselves are excluded.
    pub fn includes_parameter(&self, p: Scalar) -> (r: bool)
        ensures
            r == self.spec_includes_parameter(p),
    {
        p.gt(self.min) && p.lt(self.max)
    }

    /// The interval with its bounds exchanged.
    pub fn swap(self) -> (r: Interval)
        ensures
            r == (Interval { min: self.max, max: self.min }),
    {
        Interval::new(self.max, self.min)
    }

    /// Both bounds moved up by `shift`.
    pub fn add(self, shift: Scalar) -> (r: Interval)
        ensures
            r == (Interval { min: self.min.spec_add(shift), max: self.max.spec_add(shift) }),
    {
        Interval::new(self.min.add(shift), self.max.add(shift))
    }

    /// Both bounds moved down by `shift`.
    pub fn sub(self, shift: Scalar) -> (r: Interval)
        ensures
            r == (Interval { min: self.min.spec_sub(shift), max: self.max.spec_sub(shift) }),
    {
        Interval::new(self.min.sub(shift), self.max.sub(shift))
    }
}

/// Membership is strict: neither bound of an interval lies inside it.
pub proof fn lemma_bounds_excluded(i: Interval)
    ensures
        !i.spec_includes_parameter(i.min),
        !i.spec_includes_parameter(i.max),
{
}

impl IsValid for Interval {
    /// Both bounds are finite.
    open spec fn valid(&self) -> bool {
        self.min.is_finite() && self.max.is_finite()
    }

    fn is_valid(&self) -> (r: bool) {
        self.max.is_valid() && self.min.is_valid()
    }
}

} // verus!
