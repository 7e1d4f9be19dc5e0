use vstd::prelude::*;
use crate::point::Point3d;
use crate::scalar::Scalar;
use crate::validity::IsValid;

verus! {

/// An ordered path of points; the order of the points is the path's order.
#[derive(Debug)]
pub struct PolyLine {
    pub points: Vec<Point3d>,
}

/// The length of the path over its first `k` points: the sum of the
/// distances between consecutive points among them, zero below two points.
pub open spec fn length_upto(pts: Seq<Point3d>, k: int) -> Scalar
    decreases k,
{
    if k <= 1 {
        Scalar::Finite(0)
    } else {
        length_upto(pts, k - 1).spec_add(pts[k - 2].spec_distance(pts[k - 1]))
    }
}

impl PolyLine {
    pub open spec fn spec_length(self) -> Scalar {
        length_upto(self.points@, self.points@.len() as int)
    }

    /// A polyline with no points.
    pub fn unset() -> (r: PolyLine)
        ensures
            r.points@.len() == 0,
    {
        PolyLine { points: Vec::new() }
    }

    pub fn new(points: Vec<Point3d>) -> (r: PolyLine)
        ensures
            r.points@ == points@,
    {
        PolyLine { points }
    }

    /// The sum of the distances between consecutive points, from the start
    /// to the end; zero for an empty path.
    pub fn length(&self) -> (r: Scalar)
        ensures
            r == self.spec_length(),
    {
        let n = self.points.len();
        if n == 0 {
            return Scalar::zero();
        }
        let mut length = Scalar::zero();
        let mut i: usize = 1;
        while i < n
            invariant
                n == self.points@.len(),
                1 <= i <= n,
                length == length_upto(self.points@, i as int),
            decreases n - i,
        {
            let dist = self.points[i - 1].distance_to(&self.points[i]);
            length = length.add(dist);
            i = i + 1;
        }
        length
    }
}

/// A path with no points is not valid, and its length is zero.
pub proof fn lemma_empty_polyline(p: PolyLine)
    requires
        p.points@.len() == 0,
    ensures
        !p.valid(),
        p.spec_length() == Scalar::Finite(0),
{
}

/// A path of one point, whatever that point, has length zero.
pub proof fn lemma_single_point_polyline(p: PolyLine)
    requires
        p.points@.len() == 1,
    ensures
        p.spec_length() == Scalar::Finite(0),
{
}

impl IsValid for PolyLine {
    /// At least one point, and every point valid.
    open spec fn valid(&self) -> bool {
        self.points@.len() > 0 && forall|i: int| 0 <= i < self.points@.len() ==> (#[trigger] self.points@[i]).valid()
    }

    fn is_valid(&self) -> (r: bool) {
        let n = self.points.len();
        if n == 0 {
            return false;
        }
        let mut i: usize = 0;
        while i < n
            invariant
                n == self.points@.len(),
                0 <= i <= n,
                forall|j: int| 0 <= j < i ==> (#[trigger] self.points@[j]).valid(),
            decreases n - i,
        {
            if !self.points[i].is_valid() {
                return false;
            }
            i = i + 1;
        }
        true
    }
}

} // verus!
