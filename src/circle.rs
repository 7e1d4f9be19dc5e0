use vstd::prelude::*;
use crate::point::Point3d;
use crate::scalar::Scalar;
use crate::validity::IsValid;

verus! {

/// A circle: a center and a radius.
#[derive(Clone, Copy, Debug)]
pub struct Circle {
    pub center: Point3d,
    pub radius: Scalar,
}

impl Circle {
    /// A radius below zero, which no circle may be built with.
    pub open spec fn negative_radius(radius: Scalar) -> bool {
        radius.signum() < 0
    }

    pub open spec fn spec_eq(self, o: Circle) -> bool {
        self.center.spec_eq(o.center) && self.radius.spec_eq(o.radius)
    }

    /// A circle with an unset center and an unset radius.
    pub fn unset() -> (r: Circle)
        ensures
            r == (Circle { center: Point3d::unset_value(), radius: Scalar::Unset }),
    {
        Circle { center: Point3d::unset(), radius: Scalar::Unset }
    }

    /// The circle of `radius` around `center`. A negative radius is refused
    /// outright; a zero radius builds a circle that is not valid.
    pub fn new(center: Point3d, radius: Scalar) -> (r: Circle)
        requires
            !Circle::negative_radius(radius),
        ensures
            r == (Circle { center, radius }),
            r.valid() == (center.valid() && radius is Finite && radius->Finite_0 > 0),
    {
        Circle { center, radius }
    }

    /// The circle of `radius` around `center`, or `None` where the radius is
    /// negative: such a circle is never built.
    pub fn try_new(center: Point3d, radius: Scalar) -> (r: Option<Circle>)
        ensures
            r is None <==> Circle::negative_radius(radius),
            r matches Some(c) ==> c == (Circle { center, radius }) && c.valid() == (center.valid()
                && radius is Finite && radius->Finite_0 > 0),
    {
        if radius.sign() < 0 {
            None
        } else {
            Some(Circle::new(center, radius))
        }
    }
}

impl IsValid for Circle {
    /// The center is valid and the radius finite and strictly positive.
    open spec fn valid(&self) -> bool {
        self.center.valid() && self.radius.is_finite() && self.radius.signum() > 0
    }

    fn is_valid(&self) -> (r: bool) {
        self.center.is_valid() && self.radius.is_valid() && self.radius.sign() > 0
    }
}

impl PartialEq for Circle {
    fn eq(&self, o: &Circle) -> (r: bool) {
        self.center == o.center && self.radius == o.radius
    }
}

impl vstd::std_specs::cmp::PartialEqSpecImpl for Circle {
    open spec fn obeys_eq_spec() -> bool {
        true
    }

    open spec fn eq_spec(&self, o: &Circle) -> bool {
        self.spec_eq(*o)
    }
}

} // verus!
