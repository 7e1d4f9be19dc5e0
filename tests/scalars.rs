use geometry::Scalar;

#[test]
fn scalar_overflow_becomes_infinity() {
    assert_eq!(Scalar::Infinity, Scalar::max_value().add(Scalar::from_raw(1)));
    assert_eq!(Scalar::NegInfinity, Scalar::min_value().sub(Scalar::from_raw(1)));
    assert_eq!(Scalar::Infinity, Scalar::from_units(i64::MAX));
    assert_eq!(Scalar::NegInfinity, Scalar::max_value().mul(Scalar::from_units(-2)));
}

#[test]
fn scalar_indeterminate_forms_are_unset() {
    assert!(Scalar::Infinity.sub(Scalar::Infinity).is_unset());
    assert!(Scalar::Infinity.add(Scalar::NegInfinity).is_unset());
    assert!(Scalar::Infinity.mul(Scalar::zero()).is_unset());
    assert!(Scalar::zero().div(Scalar::zero()).is_unset());
    assert!(Scalar::Infinity.div(Scalar::NegInfinity).is_unset());
    assert!(Scalar::Unset.add(Scalar::one()).is_unset());
}

#[test]
fn scalar_division_by_zero_and_by_infinity() {
    assert_eq!(Scalar::Infinity, Scalar::one().div(Scalar::zero()));
    assert_eq!(Scalar::NegInfinity, Scalar::from_units(-3).div(Scalar::zero()));
    assert_eq!(Scalar::zero(), Scalar::from_units(7).div(Scalar::Infinity));
    assert_eq!(Scalar::NegInfinity, Scalar::Infinity.div(Scalar::from_units(-2)));
}

#[test]
fn scalar_fixed_point_rounds_toward_zero() {
    assert_eq!(Scalar::from_raw(333_333), Scalar::one().div(Scalar::from_units(3)));
    assert_eq!(Scalar::from_raw(-333_333), Scalar::from_units(-1).div(Scalar::from_units(3)));
    assert_eq!(Scalar::from_raw(1_500_000), Scalar::from_raw(500_000).mul(Scalar::from_units(3)));
    assert_eq!(Scalar::zero(), Scalar::from_raw(1).mul(Scalar::from_raw(1)));
}

#[test]
fn scalar_order_and_equality() {
    assert!(Scalar::NegInfinity.lt(Scalar::min_value()));
    assert!(Scalar::max_value().lt(Scalar::Infinity));
    assert!(!Scalar::Unset.lt(Scalar::one()));
    assert!(!Scalar::one().lt(Scalar::Unset));
    assert!(Scalar::one().le(Scalar::one()));
    assert!(Scalar::Unset != Scalar::Unset);
    assert_eq!(Scalar::one(), Scalar::from_units(1));
    assert_eq!(Scalar::from_units(2), Scalar::two());
    assert_eq!(Scalar::from_units(4), Scalar::from_units(4).max(Scalar::from_units(-4)));
    assert_eq!(Scalar::from_units(-4), Scalar::from_units(4).min(Scalar::from_units(-4)));
}

#[test]
fn scalar_validity() {
    assert!(Scalar::zero().is_valid());
    assert!(Scalar::max_value().is_valid());
    assert!(!Scalar::Unset.is_valid());
    assert!(!Scalar::Infinity.is_valid());
    assert_eq!(-1, Scalar::NegInfinity.sign());
}
