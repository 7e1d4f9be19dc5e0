use geometry::{IsValid, Scalar, Vector3d};

fn units(v: i64) -> Scalar {
    Scalar::from_units(v)
}

fn vector(x: i64, y: i64, z: i64) -> Vector3d {
    Vector3d::new(units(x), units(y), units(z))
}

#[test]
#[allow(non_snake_case)]
fn Vector3d_is_valid() {
    assert!(!Vector3d::unset().is_valid());
    assert!(!Vector3d::infinity().is_valid());
    assert!(!Vector3d::negative_infinity().is_valid());

    assert!(Vector3d::origin().is_valid());
    assert!(Vector3d::max().is_valid());
    assert!(Vector3d::min().is_valid());
}

#[test]
fn vector_origin() {
    let v = Vector3d::origin();
    assert_eq!(Scalar::zero(), v.x);
    assert_eq!(Scalar::zero(), v.y);
    assert_eq!(Scalar::zero(), v.z);
}

#[test]
fn add_two_vectors() {
    let v1 = vector(100, 100, 100);
    let v2 = vector(200, 200, 200);
    let r = Vector3d::add(&v1, &v2);
    assert_eq!(units(300), r.x);
    assert_eq!(units(300), r.y);
    assert_eq!(units(300), r.z);
}

#[test]
fn subtract_two_vectors() {
    let v1 = vector(100, 100, 100);
    let v2 = vector(200, 200, 200);
    let r = Vector3d::subtract(&v2, &v1);
    assert_eq!(units(100), r.x);
    assert_eq!(units(100), r.y);
    assert_eq!(units(100), r.z);
}

#[test]
fn divide_two_vectors() {
    let v1 = vector(100, 100, 100);
    let v2 = vector(200, 200, 200);
    let r = Vector3d::divide(&v2, &v1);
    assert_eq!(units(2), r.x);
    assert_eq!(units(2), r.y);
    assert_eq!(units(2), r.z);
}

#[test]
#[allow(non_snake_case)]
fn Vector3d_divide_by_factor() {
    let v = vector(100, 200, 300);
    let r = Vector3d::divide_by_factor(&v, units(2));
    assert_eq!(units(50), r.x);
    assert_eq!(units(100), r.y);
    assert_eq!(units(150), r.z);
}

#[test]
fn multiply_two_vectors() {
    let v1 = vector(4, 4, 4);
    let v2 = vector(5, 5, 5);
    let r = Vector3d::multiply(&v1, &v2);
    assert_eq!(units(20), r.x);
    assert_eq!(units(20), r.y);
    assert_eq!(units(20), r.z);
}

#[test]
#[allow(non_snake_case)]
fn Vector3d_multiply_by_factor() {
    let v = vector(100, 200, 300);
    let r = Vector3d::multiply_by_factor(&v, units(2));
    assert_eq!(units(200), r.x);
    assert_eq!(units(400), r.y);
    assert_eq!(units(600), r.z);
}

#[test]
fn vector_length_is_euclidean() {
    assert_eq!(units(5), vector(3, 4, 0).length());
    assert_eq!(units(13), vector(0, -5, 12).length());
    assert_eq!(Scalar::zero(), Vector3d::origin().length());
    assert_eq!(Scalar::Infinity, Vector3d::negative_infinity().length());
    assert!(Vector3d::unset().length().is_unset());
}

#[test]
fn unitized_vector_has_unit_length() {
    let u = Vector3d::unitize(&vector(3, 4, 0));
    assert_eq!(Scalar::from_raw(600_000), u.x);
    assert_eq!(Scalar::from_raw(800_000), u.y);
    assert_eq!(Scalar::one(), u.length());

    let w = Vector3d::unitize(&vector(1, 1, 1));
    let len = match w.length() {
        Scalar::Finite(raw) => raw,
        _ => panic!("length of a unit vector is finite"),
    };
    assert!((len - 1_000_000).abs() <= 2);
}

#[test]
fn unitizing_zero_vector_is_invalid() {
    assert!(!Vector3d::unitize(&Vector3d::origin()).is_valid());
}

#[test]
fn cross_product() {
    let z = Vector3d::cross_product(&Vector3d::xaxis(), &Vector3d::yaxis());
    assert_eq!(z, Vector3d::zaxis());
}

#[test]
fn cross_product_of_general_vectors() {
    let r = Vector3d::cross_product(&vector(1, 2, 3), &vector(4, 5, 6));
    assert_eq!(vector(-3, 6, -3), r);
}

#[test]
fn vector_add_then_subtract_round_trips() {
    let a = Vector3d::new(Scalar::from_raw(3), units(-8), units(1_000_000));
    let b = vector(7, 7, -7);
    assert_eq!(a, Vector3d::subtract(&Vector3d::add(&a, &b), &b));
}

#[test]
fn unitizing_short_vector_gives_unit_length() {
    let tiny = Vector3d::new(Scalar::from_raw(1), Scalar::from_raw(1), Scalar::zero());
    let u = Vector3d::unitize(&tiny);
    assert_eq!(Scalar::from_raw(707_107), u.x);
    assert_eq!(Scalar::from_raw(707_107), u.y);
    assert_eq!(Scalar::zero(), u.z);
    assert_eq!(Scalar::one(), u.length());

    let along_z = Vector3d::new(Scalar::zero(), Scalar::zero(), Scalar::from_raw(1));
    assert_eq!(Vector3d::zaxis(), Vector3d::unitize(&along_z));

    let short = Vector3d::new(Scalar::from_raw(300_000), Scalar::from_raw(400_000), Scalar::zero());
    let v = Vector3d::unitize(&short);
    assert_eq!(Scalar::from_raw(600_000), v.x);
    assert_eq!(Scalar::from_raw(800_000), v.y);
    assert_eq!(Scalar::one(), v.length());
}
