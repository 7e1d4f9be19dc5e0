use vstd::prelude::*;
use crate::point::Point3d;
use crate::scalar::Scalar;
use crate::validity::IsValid;
use crate::vector::Vector3d;

verus! {

/// A line segment between two points.
#[derive(Clone, Copy, Debug)]
pub struct Line {
    pub start: Point3d,
    pub end: Point3d,
}

impl Line {
    /// The point `origin` moved by `offset`.
    pub open spec fn moved(origin: Point3d, offset: Vector3d) -> Point3d {
        Point3d {
            x: origin.x.spec_add(offset.x),
            y: origin.y.spec_add(offset.y),
            z: origin.z.spec_add(offset.z),
        }
    }

    /// The offset of length `distance` along `direction`.
    pub open spec fn offset_along(direction: Vector3d, distance: Scalar) -> Vector3d {
        direction.spec_unitize().spec_scale(distance)
    }

    pub open spec fn spec_eq(self, o: Line) -> bool {
        self.start.spec_eq(o.start) && self.end.spec_eq(o.end)
    }

    pub fn new(start: Point3d, end: Point3d) -> (r: Line)
        ensures
            r == (Line { start, end }),
    {
        Line { start, end }
    }

    /// A line whose two ends are unset.
    pub fn unset() -> (r: Line)
        ensures
            r == (Line { start: Point3d::unset_value(), end: Point3d::unset_value() }),
    {
        Line { start: Point3d::unset(), end: Point3d::unset() }
    }

    /// The line from `origin` that runs `distance` along `direction`: the
    /// direction is unitized, scaled by the distance, and added to the origin.
    pub fn new_given_direction(origin: Point3d, direction: Vector3d, distance: Scalar) -> (r: Line)
        ensures
            r.start == origin,
            r.end == Line::moved(origin, Line::offset_along(direction, distance)),
    {
        let unit_direction = Vector3d::unitize(&direction);
        let offset = Vector3d::multiply_by_factor(&unit_direction, distance);
        let end = Point3d::new(origin.x.add(offset.x), origin.y.add(offset.y), origin.z.add(offset.z));
        Line::new(origin, end)
    }

    /// The tangent at the start, `start - end`: it points from the end back
    /// toward the start.
    pub fn get_start_tangeant(&self) -> (r: Vector3d)
        ensures
            r == (Vector3d {
                x: self.start.x.spec_sub(self.end.x),
                y: self.start.y.spec_sub(self.end.y),
                z: self.start.z.spec_sub(self.end.z),
            }),
    {
        Vector3d::new(self.start.x.sub(self.end.x), self.start.y.sub(self.end.y), self.start.z.sub(self.end.z))
    }
}

impl IsValid for Line {
    open spec fn valid(&self) -> bool {
        self.start.valid() && self.end.valid()
    }

    fn is_valid(&self) -> (r: bool) {
        self.start.is_valid() && self.end.is_valid()
    }
}

impl PartialEq for Line {
    fn eq(&self, o: &Line) -> (r: bool) {
        self.start == o.start && self.end == o.end
    }
}

impl vstd::std_specs::cmp::PartialEqSpecImpl for Line {
    open spec fn obeys_eq_spec() -> bool {
        true
    }

    open spec fn eq_spec(&self, o: &Line) -> bool {
        self.spec_eq(*o)
    }
}

} // verus!
