use geometry::{BoundingBox, Box, Circle, Interval, IsValid, Line, Plane, Point3d, PolyLine, Scalar, Vector3d};

fn units(v: i64) -> Scalar {
    Scalar::from_units(v)
}

fn point(x: i64, y: i64, z: i64) -> Point3d {
    Point3d::new(units(x), units(y), units(z))
}

#[test]
fn is_valid_failure_unset() {
    let unset = Circle::unset();
    assert!(!unset.is_valid());
}

#[test]
#[allow(non_snake_case)]
fn Circle_is_valid() {
    let valid_1 = Circle::new(Point3d::origin(), units(100));
    assert!(valid_1.is_valid());

    let tiny = Circle::new(Point3d::origin(), Scalar::from_raw(1));
    assert!(tiny.is_valid());
}

#[test]
fn zero_radius_circle_builds_but_is_invalid() {
    let zero = Circle::new(Point3d::origin(), Scalar::zero());
    assert!(!zero.is_valid());
    assert!(!Circle::new(Point3d::unset(), units(1)).is_valid());
    assert!(!Circle::new(Point3d::origin(), Scalar::Infinity).is_valid());
}

#[test]
#[allow(non_snake_case)]
fn Line_is_valid() {
    assert!(!Line::unset().is_valid());
    assert!(Line::new(point(0, 0, 0), point(1, 2, 3)).is_valid());
}

#[test]
fn line_start_tangent_points_back_to_start() {
    let line = Line::new(point(1, 1, 1), point(4, 5, 6));
    let t = line.get_start_tangeant();
    assert_eq!(Vector3d::new(units(-3), units(-4), units(-5)), t);
}

#[test]
fn line_given_direction_reaches_distance() {
    let direction = Vector3d::new(units(0), units(3), units(4));
    let line = Line::new_given_direction(point(1, 1, 1), direction, units(10));
    assert_eq!(point(1, 1, 1), line.start);
    assert_eq!(point(1, 7, 9), line.end);
}

#[test]
#[allow(non_snake_case)]
fn Plane_is_valid() {
    assert!(!Plane::unset().is_valid());
    assert!(!Plane::new(Point3d::infinity(), Vector3d::infinity(), Vector3d::infinity()).is_valid());

    assert!(Plane::worldxy().is_valid());
    assert!(Plane::worldyz().is_valid());
    assert!(Plane::worldzx().is_valid());
}

#[test]
fn world_plane_normals_are_cross_products() {
    for plane in [Plane::worldxy(), Plane::worldyz(), Plane::worldzx()] {
        assert_eq!(plane.z, Vector3d::cross_product(&plane.x, &plane.y));
        assert_eq!(plane, Plane::new(plane.origin, plane.x, plane.y));
    }
}

#[test]
fn plane_normal_is_derived() {
    let plane = Plane::new(point(1, 2, 3), Vector3d::yaxis(), Vector3d::xaxis());
    assert_eq!(Vector3d::new(units(0), units(0), units(-1)), plane.z);
}

#[test]
fn test_distance_invalid() {
    let poly = PolyLine::unset();
    assert_eq!(Scalar::zero(), poly.length());
}

#[test]
fn test_distance_valid() {
    let points = vec![
        Point3d::origin(),
        point(100, 0, 0),
        point(100, 500, 0),
        point(0, 500, 0),
        Point3d::origin(),
    ];
    let poly = PolyLine::new(points);
    assert_eq!(units(1200), poly.length());
}

#[test]
fn polyline_validity() {
    assert!(!PolyLine::unset().is_valid());
    assert!(!PolyLine::new(vec![]).is_valid());
    assert!(PolyLine::new(vec![point(1, 1, 1)]).is_valid());
    assert!(!PolyLine::new(vec![point(1, 1, 1), Point3d::unset()]).is_valid());
    assert_eq!(Scalar::zero(), PolyLine::new(vec![point(1, 1, 1)]).length());
    assert!(PolyLine::new(vec![point(1, 1, 1), Point3d::unset()]).length().is_unset());
}

#[test]
fn interval_membership_is_strict() {
    let i = Interval::new(units(0), units(10));
    assert!(!i.includes_parameter(units(0)));
    assert!(i.includes_parameter(units(5)));
    assert!(!i.includes_parameter(units(10)));
    assert!(i.includes(Interval::new(units(1), units(9))));
    assert!(!i.includes(Interval::new(units(0), units(9))));
}

#[test]
fn interval_operations() {
    let i = Interval::new(units(0), units(10));
    assert_eq!(units(5), i.mid());
    assert!(i.is_decreasing());
    assert!(!i.is_increasing());
    let s = i.swap();
    assert_eq!(units(10), s.min);
    assert_eq!(units(0), s.max);
    assert!(s.is_increasing());

    let shifted = i.add(units(3));
    assert_eq!(units(3), shifted.min);
    assert_eq!(units(13), shifted.max);
    let back = shifted.sub(units(3));
    assert_eq!(units(0), back.min);
    assert_eq!(units(10), back.max);
}

#[test]
fn interval_union_and_intersection() {
    let a = Interval::new(units(0), units(10));
    let b = Interval::new(units(5), units(20));
    let u = Interval::from_union(a, b);
    assert_eq!(units(0), u.min);
    assert_eq!(units(20), u.max);
    let n = Interval::from_intersection(a, b);
    assert_eq!(units(5), n.min);
    assert_eq!(units(10), n.max);
}

#[test]
fn interval_validity() {
    assert!(Interval::zero().is_valid());
    assert!(Interval::new(units(3), units(-3)).is_valid());
    assert!(!Interval::unset().is_valid());
    assert!(!Interval::new(units(0), Scalar::Infinity).is_valid());
}

#[test]
fn bounding_box_validity() {
    assert!(BoundingBox::new(point(0, 0, 0), point(1, 2, 3)).is_valid());
    assert!(!BoundingBox::new(point(0, 0, 0), point(1, 0, 3)).is_valid());
    assert!(!BoundingBox::new(point(0, 0, 0), point(1, 2, -3)).is_valid());
    assert!(!BoundingBox::empty().is_valid());
    assert!(!BoundingBox::unset().is_valid());
}

#[test]
fn bounding_box_measures() {
    let b = BoundingBox::new(point(1, 2, 3), point(3, 6, 9));
    assert_eq!(units(48), b.volume());
    assert_eq!(point(2, 4, 6), b.center());
    assert!(b.contains_point(point(1, 2, 3)));
    assert!(b.contains_point(point(2, 5, 9)));
    assert!(!b.contains_point(point(0, 5, 5)));
    assert!(!b.contains_point(Point3d::unset()));
    assert!(b.contains_boundingbox(BoundingBox::new(point(2, 3, 4), point(3, 6, 9))));
    assert!(!b.contains_boundingbox(BoundingBox::new(point(2, 3, 4), point(4, 6, 9))));
}

#[test]
fn bounding_box_inflate() {
    let b = BoundingBox::new(point(1, 2, 3), point(3, 6, 9));
    let g = b.inflate_uniform(units(1));
    assert_eq!(BoundingBox::new(point(0, 1, 2), point(4, 7, 10)), g);
    let h = b.inflate(units(1), units(0), units(-1));
    assert_eq!(BoundingBox::new(point(0, 2, 4), point(4, 6, 8)), h);
}

#[test]
fn bounding_box_point_at_and_corners() {
    let b = BoundingBox::new(point(1, 2, 3), point(3, 6, 9));
    assert_eq!(b.min, b.point_at(units(0), units(0), units(0)));
    assert_eq!(b.max, b.point_at(units(1), units(1), units(1)));
    assert_eq!(point(2, 4, 6), b.point_at(Scalar::from_raw(500_000), Scalar::from_raw(500_000), Scalar::from_raw(500_000)));
    assert_eq!(point(5, 2, 3), b.point_at(units(2), units(0), units(0)));

    let corners = b.get_corners();
    assert_eq!(8, corners.len());
    assert_eq!(point(1, 2, 3), corners[0]);
    assert_eq!(point(1, 6, 3), corners[1]);
    assert_eq!(point(1, 2, 9), corners[2]);
    assert_eq!(point(3, 6, 9), corners[7]);
    for i in 0..8 {
        for j in 0..8 {
            if i != j {
                assert!(corners[i] != corners[j]);
            }
        }
    }
}

#[test]
fn oriented_box_equality() {
    let a = Box::new(Plane::worldxy(), point(0, 0, 0), point(1, 1, 1));
    let b = Box::new(Plane::worldxy(), point(0, 0, 0), point(1, 1, 1));
    let c = Box::new(Plane::worldyz(), point(0, 0, 0), point(1, 1, 1));
    assert!(a == b);
    assert!(a != c);
}

#[test]
fn one_point_path_has_zero_length() {
    assert_eq!(Scalar::zero(), PolyLine::new(vec![Point3d::unset()]).length());
    assert_eq!(Scalar::zero(), PolyLine::new(vec![Point3d::infinity()]).length());
    assert_eq!(Scalar::zero(), PolyLine::new(vec![point(4, 5, 6)]).length());
    assert_eq!(units(5), PolyLine::new(vec![point(0, 0, 0), point(3, 4, 0)]).length());
}

#[test]
fn circle_with_negative_radius_is_refused() {
    assert!(Circle::try_new(Point3d::origin(), units(-100)).is_none());
    assert!(Circle::try_new(Point3d::origin(), Scalar::NegInfinity).is_none());
    let zero = Circle::try_new(Point3d::origin(), Scalar::zero()).unwrap();
    assert!(!zero.is_valid());
    let valid = Circle::try_new(Point3d::origin(), units(100)).unwrap();
    assert!(valid.is_valid());
}
