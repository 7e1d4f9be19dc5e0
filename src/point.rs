use vstd::prelude::*;
use crate::scalar::{norm, norm3, Scalar, SCALE};
use crate::validity::IsValid;

verus! {

/// A point in three-dimensional space.
#[derive(Clone, Copy, Debug)]
pub struct Point3d {
    pub x: Scalar,
    pub y: Scalar,
    pub z: Scalar,
}

impl Point3d {
    pub open spec fn spec_add(self, o: Point3d) -> Point3d {
        Point3d { x: self.x.spec_add(o.x), y: self.y.spec_add(o.y), z: self.z.spec_add(o.z) }
    }

    pub open spec fn spec_sub(self, o: Point3d) -> Point3d {
        Point3d { x: self.x.spec_sub(o.x), y: self.y.spec_sub(o.y), z: self.z.spec_sub(o.z) }
    }

    pub open spec fn spec_mul(self, o: Point3d) -> Point3d {
        Point3d { x: self.x.spec_mul(o.x), y: self.y.spec_mul(o.y), z: self.z.spec_mul(o.z) }
    }

    pub open spec fn spec_div(self, o: Point3d) -> Point3d {
        Point3d { x: self.x.spec_div(o.x), y: self.y.spec_div(o.y), z: self.z.spec_div(o.z) }
    }

    pub open spec fn spec_scale(self, f: Scalar) -> Point3d {
        Point3d { x: self.x.spec_mul(f), y: self.y.spec_mul(f), z: self.z.spec_mul(f) }
    }

    pub open spec fn spec_shrink(self, f: Scalar) -> Point3d {
        Point3d { x: self.x.spec_div(f), y: self.y.spec_div(f), z: self.z.spec_div(f) }
    }

    /// Exact componentwise equality; a point with an unset component equals nothing.
    pub open spec fn spec_eq(self, o: Point3d) -> bool {
        self.x.spec_eq(o.x) && self.y.spec_eq(o.y) && self.z.spec_eq(o.z)
    }

    /// Every component of `self` is strictly greater than that of `o`.
    pub open spec fn spec_gt(self, o: Point3d) -> bool {
        o.x.spec_lt(self.x) && o.y.spec_lt(self.y) && o.z.spec_lt(self.z)
    }

    pub open spec fn spec_distance(self, o: Point3d) -> Scalar {
        let d = o.spec_sub(self);
        norm(d.x, d.y, d.z)
    }

    /// Moves from `self` by `parameter` times half the offset from `rhs` to `self`.
    pub open spec fn spec_interpolate(self, rhs: Point3d, parameter: Scalar) -> Point3d {
        let two = Scalar::Finite((2 * SCALE) as i64);
        let half = self.spec_sub(rhs).spec_shrink(two);
        self.spec_add(half.spec_scale(parameter))
    }

    /// A value with every component unset.
    pub open spec fn unset_value() -> Point3d {
        Point3d { x: Scalar::Unset, y: Scalar::Unset, z: Scalar::Unset }
    }

    pub fn new(x: Scalar, y: Scalar, z: Scalar) -> (r: Point3d)
        ensures
            r == (Point3d { x, y, z }),
    {
        Point3d { x, y, z }
    }

    /// The origin, (0, 0, 0).
    pub fn origin() -> (r: Point3d)
        ensures
            r == (Point3d { x: Scalar::Finite(0), y: Scalar::Finite(0), z: Scalar::Finite(0) }),
    {
        Point3d::new(Scalar::zero(), Scalar::zero(), Scalar::zero())
    }

    /// A point that does not exist: every component unset.
    pub fn unset() -> (r: Point3d)
        ensures
            r == Point3d::unset_value(),
    {
        Point3d::new(Scalar::Unset, Scalar::Unset, Scalar::Unset)
    }

    /// The point at the edge of positive infinity.
    pub fn infinity() -> (r: Point3d)
        ensures
            r == (Point3d { x: Scalar::Infinity, y: Scalar::Infinity, z: Scalar::Infinity }),
    {
        Point3d::new(Scalar::Infinity, Scalar::Infinity, Scalar::Infinity)
    }

    /// The point at the edge of negative infinity.
    pub fn negative_infinity() -> (r: Point3d)
        ensures
            r == (Point3d { x: Scalar::NegInfinity, y: Scalar::NegInfinity, z: Scalar::NegInfinity }),
    {
        Point3d::new(Scalar::NegInfinity, Scalar::NegInfinity, Scalar::NegInfinity)
    }

    /// The largest finite point.
    pub fn max() -> (r: Point3d)
        ensures
            r == (Point3d { x: Scalar::Finite(i64::MAX), y: Scalar::Finite(i64::MAX), z: Scalar::Finite(i64::MAX) }),
    {
        Point3d::new(Scalar::max_value(), Scalar::max_value(), Scalar::max_value())
    }

    /// The smallest finite point.
    pub fn min() -> (r: Point3d)
        ensures
            r == (Point3d { x: Scalar::Finite(i64::MIN), y: Scalar::Finite(i64::MIN), z: Scalar::Finite(i64::MIN) }),
    {
        Point3d::new(Scalar::min_value(), Scalar::min_value(), Scalar::min_value())
    }

    /// Componentwise sum.
    pub fn add(p1: &Point3d, p2: &Point3d) -> (r: Point3d)
        ensures
            r == p1.spec_add(*p2),
    {
        Point3d::new(p1.x.add(p2.x), p1.y.add(p2.y), p1.z.add(p2.z))
    }

    /// Componentwise difference `lhs - rhs`.
    pub fn subtract(lhs: &Point3d, rhs: &Point3d) -> (r: Point3d)
        ensures
            r == lhs.spec_sub(*rhs),
    {
        Point3d::new(lhs.x.sub(rhs.x), lhs.y.sub(rhs.y), lhs.z.sub(rhs.z))
    }

    /// Componentwise product.
    pub fn multiply(p1: &Point3d, p2: &Point3d) -> (r: Point3d)
        ensures
            r == p1.spec_mul(*p2),
    {
        Point3d::new(p1.x.mul(p2.x), p1.y.mul(p2.y), p1.z.mul(p2.z))
    }

    /// Every component multiplied by `factor`.
    pub fn multiply_by_factor(p1: &Point3d, factor: Scalar) -> (r: Point3d)
        ensures
            r == p1.spec_scale(factor),
    {
        Point3d::new(p1.x.mul(factor), p1.y.mul(factor), p1.z.mul(factor))
    }

    /// Componentwise quotient `lhs / rhs`.
    pub fn divide(lhs: &Point3d, rhs: &Point3d) -> (r: Point3d)
        ensures
            r == lhs.spec_div(*rhs),
    {
        Point3d::new(lhs.x.div(rhs.x), lhs.y.div(rhs.y), lhs.z.div(rhs.z))
    }

    /// Every component divided by `factor`.
    pub fn divide_by_factor(p1: &Point3d, factor: Scalar) -> (r: Point3d)
        ensures
            r == p1.spec_shrink(factor),
    {
        Point3d::new(p1.x.div(factor), p1.y.div(factor), p1.z.div(factor))
    }

    /// Euclidean distance to `rhs`.
    pub fn distance_to(&self, rhs: &Point3d) -> (r: Scalar)
        ensures
            r == self.spec_distance(*rhs),
    {
        let d = Point3d::subtract(rhs, self);
        norm3(d.x, d.y, d.z)
    }

    /// The point `self + (self - rhs) / 2 * parameter`: the parameter 0 gives
    /// `self`, and -2 gives `rhs`.
    pub fn interpolate(&self, rhs: &Point3d, parameter: Scalar) -> (r: Point3d)
        ensures
            r == self.spec_interpolate(*rhs, parameter),
    {
        let two = Scalar::two();
        let half = Point3d::divide_by_factor(&Point3d::subtract(self, rhs), two);
        Point3d::add(self, &Point3d::multiply_by_factor(&half, parameter))
    }

    /// Every component of `self` is strictly greater than that of `other`.
    pub fn gt(&self, other: &Point3d) -> (r: bool)
        ensures
            r == self.spec_gt(*other),
    {
        self.x.gt(other.x) && self.y.gt(other.y) && self.z.gt(other.z)
    }

    /// Every component of `self` is strictly less than that of `other`.
    pub fn lt(&self, other: &Point3d) -> (r: bool)
        ensures
            r == other.spec_gt(*self),
    {
        other.gt(self)
    }
}

/// A point built from three scalars is valid exactly when all three are
/// finite: any unset or infinite component makes it invalid.
pub proof fn lemma_point_validity(x: Scalar, y: Scalar, z: Scalar)
    ensures
        (Point3d { x, y, z }).valid() <==> (x.is_finite() && y.is_finite() && z.is_finite()),
{
}

/// Adding `b` to a valid `a` and subtracting it again gives `a` back exactly,
/// wherever the sum itself stays within range.
pub proof fn lemma_point_add_sub_round_trip(a: Point3d, b: Point3d)
    requires
        a.valid(),
        b.valid(),
        a.spec_add(b).valid(),
    ensures
        a.spec_add(b).spec_sub(b) == a,
{
}

impl IsValid for Point3d {
    open spec fn valid(&self) -> bool {
        self.x.is_finite() && self.y.is_finite() && self.z.is_finite()
    }

    fn is_valid(&self) -> (r: bool) {
        self.x.is_valid() && self.y.is_valid() && self.z.is_valid()
    }
}

impl PartialEq for Point3d {
    fn eq(&self, o: &Point3d) -> (r: bool) {
        self.x == o.x && self.y == o.y && self.z == o.z
    }
}

impl vstd::std_specs::cmp::PartialEqSpecImpl for Point3d {
    open spec fn obeys_eq_spec() -> bool {
        true
    }

    open spec fn eq_spec(&self, o: &Point3d) -> bool {
        self.spec_eq(*o)
    }
}

} // verus!
