use vstd::prelude::*;
use crate::point::Point3d;
use crate::scalar::{lemma_tdiv_scale, Scalar, SCALE};
use crate::validity::IsValid;

verus! {

/// A box aligned with the world axes, given by its minimum and maximum corners.
#[derive(Clone, Copy, Debug)]
pub struct BoundingBox {
    pub min: Point3d,
    pub max: Point3d,
}

/// The value at parameter `t` along one axis from `lo` to `hi`: `lo + (hi - lo) * t`.
pub open spec fn lerp(lo: Scalar, hi: Scalar, t: Scalar) -> Scalar {
    lo.spec_add(hi.spec_sub(lo).spec_mul(t))
}

/// `lo <= v <= hi`.
pub open spec fn within(lo: Scalar, v: Scalar, hi: Scalar) -> bool {
    lo.spec_le(v) && v.spec_le(hi)
}

/// The parameter 0 or 1.
pub open spec fn unit_param(one: bool) -> Scalar {
    Scalar::Finite(if one { SCALE } else { 0 })
}

impl BoundingBox {
    pub open spec fn spec_point_at(self, x: Scalar, y: Scalar, z: Scalar) -> Point3d {
        Point3d {
            x: lerp(self.min.x, self.max.x, x),
            y: lerp(self.min.y, self.max.y, y),
            z: lerp(self.min.z, self.max.z, z),
        }
    }

    /// The corner at parameter 0 or 1 along each axis.
    pub open spec fn corner(self, x: bool, y: bool, z: bool) -> Point3d {
        self.spec_point_at(unit_param(x), unit_param(y), unit_param(z))
    }

    /// The eight corners, in their fixed order.
    pub open spec fn spec_corners(self) -> Seq<Point3d> {
        seq![
            self.corner(false, false, false),
            self.corner(false, true, false),
            self.corner(false, false, true),
            self.corner(false, true, true),
            self.corner(true, false, false),
            self.corner(true, true, false),
            self.corner(true, false, true),
            self.corner(true, true, true),
        ]
    }

    pub open spec fn spec_contains_point(self, p: Point3d) -> bool {
        within(self.min.x, p.x, self.max.x) && within(self.min.y, p.y, self.max.y)
            && within(self.min.z, p.z, self.max.z)
    }

    pub open spec fn spec_inflate(self, x: Scalar, y: Scalar, z: Scalar) -> BoundingBox {
        BoundingBox {
            min: Point3d { x: self.min.x.spec_sub(x), y: self.min.y.spec_sub(y), z: self.min.z.spec_sub(z) },
            max: Point3d { x: self.max.x.spec_add(x), y: self.max.y.spec_add(y), z: self.max.z.spec_add(z) },
        }
    }

    pub open spec fn spec_eq(self, o: BoundingBox) -> bool {
        self.min.spec_eq(o.min) && self.max.spec_eq(o.max)
    }

    /// The box with both corners at the origin, of zero volume.
    pub fn empty() -> (r: BoundingBox)
        ensures
            r.min == (Point3d { x: Scalar::Finite(0), y: Scalar::Finite(0), z: Scalar::Finite(0) }),
            r.max == r.min,
    {
        BoundingBox { min: Point3d::origin(), max: Point3d::origin() }
    }

    /// A box whose corners are unset.
    pub fn unset() -> (r: BoundingBox)
        ensures
            r == (BoundingBox { min: Point3d::unset_value(), max: Point3d::unset_value() }),
    {
        BoundingBox { min: Point3d::unset(), max: Point3d::unset() }
    }

    pub fn new(min: Point3d, max: Point3d) -> (r: BoundingBox)
        ensures
            r == (BoundingBox { min, max }),
    {
        BoundingBox { min, max }
    }

    /// The product of the extents along the three axes.
    pub fn volume(&self) -> (r: Scalar)
        ensures
            r == self.max.x.spec_sub(self.min.x).spec_mul(self.max.y.spec_sub(self.min.y)).spec_mul(
                self.max.z.spec_sub(self.min.z),
            ),
    {
        let x_dist = self.max.x.sub(self.min.x);
        let y_dist = self.max.y.sub(self.min.y);
        let z_dist = self.max.z.sub(self.min.z);
        x_dist.mul(y_dist).mul(z_dist)
    }

    /// The middle of the box, `min + (max - min) / 2` on each axis.
    pub fn center(&self) -> (r: Point3d)
        ensures
            r == (Point3d {
                x: self.min.x.spec_add(self.max.x.spec_sub(self.min.x).spec_div(Scalar::Finite((2 * SCALE) as i64))),
                y: self.min.y.spec_add(self.max.y.spec_sub(self.min.y).spec_div(Scalar::Finite((2 * SCALE) as i64))),
                z: self.min.z.spec_add(self.max.z.spec_sub(self.min.z).spec_div(Scalar::Finite((2 * SCALE) as i64))),
            }),
    {
        let two = Scalar::two();
        Point3d::new(
            self.min.x.add(self.max.x.sub(self.min.x).div(two)),
            self.min.y.add(self.max.y.sub(self.min.y).div(two)),
            self.min.z.add(self.max.z.sub(self.min.z).div(two)),
        )
    }

    /// Whether `point` lies in the box, its faces included.
    pub fn contains_point(&self, point: Point3d) -> (r: bool)
        ensures
            r == self.spec_contains_point(point),
    {
        self.min.x.le(point.x) && point.x.le(self.max.x) && self.min.y.le(point.y) && point.y.le(self.max.y)
            && self.min.z.le(point.z) && point.z.le(self.max.z)
    }

    /// Whether both corners of `bounds` lie in the box.
    pub fn contains_boundingbox(&self, bounds: BoundingBox) -> (r: bool)
        ensures
            r == (self.spec_contains_point(bounds.min) && self.spec_contains_point(bounds.max)),
    {
        self.contains_point(bounds.min) && self.contains_point(bounds.max)
    }

    /// The box grown outward by `val` on every side.
    pub fn inflate_uniform(&self, val: Scalar) -> (r: BoundingBox)
        ensures
            r == self.spec_inflate(val, val, val),
    {
        self.inflate(val, val, val)
    }

    /// The box grown outward by `x`, `y` and `z` on the sides of each axis; a
    /// negative amount shrinks it.
    pub fn inflate(&self, x: Scalar, y: Scalar, z: Scalar) -> (r: BoundingBox)
        ensures
            r == self.spec_inflate(x, y, z),
    {
        BoundingBox {
            min: Point3d::new(self.min.x.sub(x), self.min.y.sub(y), self.min.z.sub(z)),
            max: Point3d::new(self.max.x.add(x), self.max.y.add(y), self.max.z.add(z)),
        }
    }

    /// The point at parameters `x`, `y`, `z` across the box: 0 is the minimum
    /// and 1 the maximum on each axis, and other values extrapolate.
    pub fn point_at(&self, x: Scalar, y: Scalar, z: Scalar) -> (r: Point3d)
        ensures
            r == self.spec_point_at(x, y, z),
    {
        Point3d::new(
            self.min.x.add(self.max.x.sub(self.min.x).mul(x)),
            self.min.y.add(self.max.y.sub(self.min.y).mul(y)),
            self.min.z.add(self.max.z.sub(self.min.z).mul(z)),
        )
    }

    /// The eight corners: the x parameter varies slowest, then z, then y.
    pub fn get_corners(&self) -> (r: Vec<Point3d>)
        ensures
            r@ == self.spec_corners(),
    {
        let o = Scalar::zero();
        let i = Scalar::one();
        let mut corners: Vec<Point3d> = Vec::new();
        corners.push(self.point_at(o, o, o));
        corners.push(self.point_at(o, i, o));
        corners.push(self.point_at(o, o, i));
        corners.push(self.point_at(o, i, i));
        corners.push(self.point_at(i, o, o));
        corners.push(self.point_at(i, i, o));
        corners.push(self.point_at(i, o, i));
        corners.push(self.point_at(i, i, i));
        assert(corners@ =~= self.spec_corners());
        corners
    }
}

/// A box of valid corners is valid exactly when its maximum lies strictly
/// above its minimum on every axis.
pub proof fn lemma_bounding_box_validity(min: Point3d, max: Point3d)
    requires
        min.valid(),
        max.valid(),
    ensures
        (BoundingBox { min, max }).valid() <==> (min.x.spec_lt(max.x) && min.y.spec_lt(max.y) && min.z.spec_lt(
            max.z,
        )),
{
}

/// Along one axis of finite extent, parameter 0 gives the lower bound and 1
/// the upper bound.
proof fn lemma_lerp_ends(lo: Scalar, hi: Scalar)
    requires
        lo.is_finite(),
        hi.is_finite(),
        hi.spec_sub(lo).is_finite(),
    ensures
        lerp(lo, hi, unit_param(false)) == lo,
        lerp(lo, hi, unit_param(true)) == hi,
{
    let d = hi->Finite_0 - lo->Finite_0;
    lemma_tdiv_scale(d);
    assert(d * 0 == 0);
    assert(crate::scalar::tdiv(0, SCALE as int) == 0);
}

/// For a valid box whose extents are finite, parameter 0 on every axis gives
/// the minimum corner, 1 on every axis the maximum corner, and the eight
/// corners are distinct points.
pub proof fn lemma_bounding_box_corners(b: BoundingBox)
    requires
        b.valid(),
        b.max.spec_sub(b.min).valid(),
    ensures
        b.spec_point_at(unit_param(false), unit_param(false), unit_param(false)) == b.min,
        b.spec_point_at(unit_param(true), unit_param(true), unit_param(true)) == b.max,
        b.spec_corners().len() == 8,
        forall|i: int, j: int|
            0 <= i < 8 && 0 <= j < 8 && i != j ==> b.spec_corners()[i] != b.spec_corners()[j],
{
    lemma_lerp_ends(b.min.x, b.max.x);
    lemma_lerp_ends(b.min.y, b.max.y);
    lemma_lerp_ends(b.min.z, b.max.z);
    let c = b.spec_corners();
    assert(c[0] == Point3d { x: b.min.x, y: b.min.y, z: b.min.z });
    assert(c[1] == Point3d { x: b.min.x, y: b.max.y, z: b.min.z });
    assert(c[2] == Point3d { x: b.min.x, y: b.min.y, z: b.max.z });
    assert(c[3] == Point3d { x: b.min.x, y: b.max.y, z: b.max.z });
    assert(c[4] == Point3d { x: b.max.x, y: b.min.y, z: b.min.z });
    assert(c[5] == Point3d { x: b.max.x, y: b.max.y, z: b.min.z });
    assert(c[6] == Point3d { x: b.max.x, y: b.min.y, z: b.max.z });
    assert(c[7] == Point3d { x: b.max.x, y: b.max.y, z: b.max.z });
}

impl IsValid for BoundingBox {
    /// Both corners valid, and the maximum strictly above the minimum on every axis.
    open spec fn valid(&self) -> bool {
        self.min.valid() && self.max.valid() && self.max.spec_gt(self.min)
    }

    fn is_valid(&self) -> (r: bool) {
        self.min.is_valid() && self.max.is_valid() && self.max.gt(&self.min)
    }
}

impl PartialEq for BoundingBox {
    fn eq(&self, o: &BoundingBox) -> (r: bool) {
        self.min == o.min && self.max == o.max
    }
}

impl vstd::std_specs::cmp::PartialEqSpecImpl for BoundingBox {
    open spec fn obeys_eq_spec() -> bool {
        true
    }

    open spec fn eq_spec(&self, o: &BoundingBox) -> bool {
        self.spec_eq(*o)
    }
}

} // verus!
