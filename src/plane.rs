use vstd::prelude::*;
use crate::point::Point3d;
use crate::validity::IsValid;
use crate::vector::Vector3d;
use crate::scalar::{lemma_tdiv_scale, Scalar, SCALE};

verus! {

/// An infinite plane: an origin and a frame of three basis vectors.
///
/// The normal `z` is always the cross product of `x` and `y`. The two input
/// vectors need not be orthogonal to each other; that is accepted as given.
#[derive(Clone, Copy, Debug)]
pub struct Plane {
    pub origin: Point3d,
    pub x: Vector3d,
    pub y: Vector3d,
    pub z: Vector3d,
}

/// The origin as a spec value.
pub open spec fn origin_point() -> Point3d {
    Point3d { x: Scalar::Finite(0), y: Scalar::Finite(0), z: Scalar::Finite(0) }
}

pub open spec fn axis(i: int) -> Vector3d {
    Vector3d {
        x: Scalar::Finite(if i == 0 { SCALE } else { 0 }),
        y: Scalar::Finite(if i == 1 { SCALE } else { 0 }),
        z: Scalar::Finite(if i == 2 { SCALE } else { 0 }),
    }
}

impl Plane {
    /// The plane through `origin` spanned by `x` and `y`, whose normal is `x × y`.
    pub open spec fn spanned(origin: Point3d, x: Vector3d, y: Vector3d) -> Plane {
        Plane { origin, x, y, z: x.spec_cross(y) }
    }

    pub open spec fn spec_worldxy() -> Plane {
        Plane { origin: origin_point(), x: axis(0), y: axis(1), z: axis(2) }
    }

    pub open spec fn spec_worldyz() -> Plane {
        Plane { origin: origin_point(), x: axis(2), y: axis(0), z: axis(1) }
    }

    pub open spec fn spec_worldzx() -> Plane {
        Plane { origin: origin_point(), x: axis(1), y: axis(2), z: axis(0) }
    }

    pub open spec fn spec_eq(self, o: Plane) -> bool {
        self.origin.spec_eq(o.origin) && self.x.spec_eq(o.x) && self.y.spec_eq(o.y)
            && self.z.spec_eq(o.z)
    }

    pub fn new(origin: Point3d, x: Vector3d, y: Vector3d) -> (r: Plane)
        ensures
            r == Plane::spanned(origin, x, y),
    {
        let z = Vector3d::cross_product(&x, &y);
        Plane { origin, x, y, z }
    }

    /// A plane with an unset origin and unset basis vectors.
    pub fn unset() -> (r: Plane)
        ensures
            r.origin == Point3d::unset_value(),
            r.x == Vector3d::unset_value(),
            r.y == Vector3d::unset_value(),
            r.z == Vector3d::unset_value(),
    {
        Plane { origin: Point3d::unset(), x: Vector3d::unset(), y: Vector3d::unset(), z: Vector3d::unset() }
    }

    /// The world XY plane: x along X, y along Y, normal along Z.
    pub fn worldxy() -> (r: Plane)
        ensures
            r == Plane::spec_worldxy(),
    {
        Plane { origin: Point3d::origin(), x: Vector3d::xaxis(), y: Vector3d::yaxis(), z: Vector3d::zaxis() }
    }

    /// The world YZ plane: x along Z, y along X, normal along Y.
    pub fn worldyz() -> (r: Plane)
        ensures
            r == Plane::spec_worldyz(),
    {
        Plane { origin: Point3d::origin(), x: Vector3d::zaxis(), y: Vector3d::xaxis(), z: Vector3d::yaxis() }
    }

    /// The world ZX plane: x along Y, y along Z, normal along X.
    pub fn worldzx() -> (r: Plane)
        ensures
            r == Plane::spec_worldzx(),
    {
        Plane { origin: Point3d::origin(), x: Vector3d::yaxis(), y: Vector3d::zaxis(), z: Vector3d::xaxis() }
    }
}

/// The three world planes are valid, and the normal of each is the cross
/// product of its first two basis vectors.
pub proof fn lemma_world_planes()
    ensures
        Plane::spec_worldxy().valid(),
        Plane::spec_worldyz().valid(),
        Plane::spec_worldzx().valid(),
        Plane::spec_worldxy().z == Plane::spec_worldxy().x.spec_cross(Plane::spec_worldxy().y),
        Plane::spec_worldyz().z == Plane::spec_worldyz().x.spec_cross(Plane::spec_worldyz().y),
        Plane::spec_worldzx().z == Plane::spec_worldzx().x.spec_cross(Plane::spec_worldzx().y),
{
    lemma_tdiv_scale(SCALE as int);
    lemma_tdiv_scale(0);
}

impl IsValid for Plane {
    open spec fn valid(&self) -> bool {
        self.origin.valid() && self.x.valid() && self.y.valid() && self.z.valid()
    }

    fn is_valid(&self) -> (r: bool) {
        self.origin.is_valid() && self.x.is_valid() && self.y.is_valid() && self.z.is_valid()
    }
}

impl PartialEq for Plane {
    fn eq(&self, o: &Plane) -> (r: bool) {
        self.origin == o.origin && self.x == o.x && self.y == o.y && self.z == o.z
    }
}

impl vstd::std_specs::cmp::PartialEqSpecImpl for Plane {
    open spec fn obeys_eq_spec() -> bool {
        true
    }

    open spec fn eq_spec(&self, o: &Plane) -> bool {
        self.spec_eq(*o)
    }
}

} // verus!
