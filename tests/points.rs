use geometry::{IsValid, Point3d, Scalar};

fn units(v: i64) -> Scalar {
    Scalar::from_units(v)
}

fn point(x: i64, y: i64, z: i64) -> Point3d {
    Point3d::new(units(x), units(y), units(z))
}

#[test]
#[allow(non_snake_case)]
fn Point3d_is_valid() {
    assert!(!Point3d::unset().is_valid());
    assert!(!Point3d::infinity().is_valid());
    assert!(!Point3d::negative_infinity().is_valid());

    assert!(Point3d::origin().is_valid());
    assert!(Point3d::max().is_valid());
    assert!(Point3d::min().is_valid());
}

#[test]
fn point_origin() {
    let point = Point3d::origin();
    assert_eq!(Scalar::zero(), point.x);
    assert_eq!(Scalar::zero(), point.y);
    assert_eq!(Scalar::zero(), point.z);
}

#[test]
fn add_two_points() {
    let p1 = point(100, 100, 100);
    let p2 = point(200, 200, 200);
    let new_point = Point3d::add(&p1, &p2);
    assert_eq!(units(300), new_point.x);
    assert_eq!(units(300), new_point.y);
    assert_eq!(units(300), new_point.z);
}

#[test]
fn subtract_two_points() {
    let p1 = point(100, 100, 100);
    let p2 = point(200, 200, 200);
    let new_point = Point3d::subtract(&p2, &p1);
    assert_eq!(units(100), new_point.x);
    assert_eq!(units(100), new_point.y);
    assert_eq!(units(100), new_point.z);
}

#[test]
fn divide_two_points() {
    let p1 = point(100, 100, 100);
    let p2 = point(200, 200, 200);
    let new_point = Point3d::divide(&p2, &p1);
    assert_eq!(units(2), new_point.x);
    assert_eq!(units(2), new_point.y);
    assert_eq!(units(2), new_point.z);
}

#[test]
#[allow(non_snake_case)]
fn Point3d_divide_by_factor() {
    let p = point(100, 200, 300);
    let new_point = Point3d::divide_by_factor(&p, units(2));
    assert_eq!(units(50), new_point.x);
    assert_eq!(units(100), new_point.y);
    assert_eq!(units(150), new_point.z);
}

#[test]
fn multiply_two_points() {
    let p1 = point(4, 4, 4);
    let p2 = point(5, 5, 5);
    let new_point = Point3d::multiply(&p1, &p2);
    assert_eq!(units(20), new_point.x);
    assert_eq!(units(20), new_point.y);
    assert_eq!(units(20), new_point.z);
}

#[test]
#[allow(non_snake_case)]
fn Point3d_multiply_by_factor() {
    let p = point(100, 200, 300);
    let bigger_point = Point3d::multiply_by_factor(&p, units(2));
    assert_eq!(units(200), bigger_point.x);
    assert_eq!(units(400), bigger_point.y);
    assert_eq!(units(600), bigger_point.z);
}

#[test]
fn point_with_one_bad_component_is_invalid() {
    assert!(point(1, 2, 3).is_valid());
    assert!(!Point3d::new(units(1), Scalar::Unset, units(3)).is_valid());
    assert!(!Point3d::new(units(1), units(2), Scalar::Infinity).is_valid());
    assert!(!Point3d::new(Scalar::NegInfinity, units(2), units(3)).is_valid());
}

#[test]
fn point_add_then_subtract_round_trips() {
    let a = Point3d::new(Scalar::from_raw(-7), units(12345), Scalar::from_raw(999_999));
    let b = point(-40, 17, 3);
    let back = Point3d::subtract(&Point3d::add(&a, &b), &b);
    assert_eq!(a, back);
}

#[test]
fn point_distance_is_euclidean() {
    let a = point(1, 2, 3);
    let b = point(4, 6, 3);
    assert_eq!(units(5), a.distance_to(&b));
    assert!(Point3d::unset().distance_to(&a).is_unset());
    assert_eq!(Scalar::Infinity, Point3d::infinity().distance_to(&a));
}

#[test]
fn point_interpolate_moves_by_half_offset() {
    let a = point(10, 0, 0);
    let b = point(0, 0, 0);
    assert_eq!(a, a.interpolate(&b, units(0)));
    assert_eq!(point(15, 0, 0), a.interpolate(&b, units(1)));
    assert_eq!(b, a.interpolate(&b, units(-2)));
}

#[test]
fn point_strict_comparisons() {
    let a = point(1, 1, 1);
    let b = point(2, 2, 2);
    assert!(b.gt(&a));
    assert!(a.lt(&b));
    assert!(!point(2, 0, 2).gt(&a));
    assert!(!Point3d::unset().gt(&a));
}

#[test]
fn unset_point_equals_nothing() {
    assert!(Point3d::unset() != Point3d::unset());
    assert!(Point3d::origin() == point(0, 0, 0));
    assert!(Point3d::infinity() == Point3d::infinity());
}
