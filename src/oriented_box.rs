use vstd::prelude::*;
use crate::plane::Plane;
use crate::point::Point3d;

verus! {

/// A box oriented by a plane, with its extents given in the plane's frame.
#[derive(Clone, Copy, Debug)]
pub struct Box {
    pub plane: Plane,
    pub min: Point3d,
    pub max: Point3d,
}

impl Box {
    pub open spec fn spec_eq(self, o: Box) -> bool {
        self.min.spec_eq(o.min) && self.max.spec_eq(o.max) && self.plane.spec_eq(o.plane)
    }

    pub fn new(plane: Plane, min: Point3d, max: Point3d) -> (r: Box)
        ensures
            r == (Box { plane, min, max }),
    {
        Box { plane, min, max }
    }
}

impl PartialEq for Box {
    fn eq(&self, o: &Box) -> (r: bool) {
        self.min == o.min && self.max == o.max && self.plane == o.plane
    }
}

impl vstd::std_specs::cmp::PartialEqSpecImpl for Box {
    open spec fn obeys_eq_spec() -> bool {
        true
    }

    open spec fn eq_spec(&self, o: &Box) -> bool {
        self.spec_eq(*o)
    }
}

} // verus!
