use geom2d::scalar::{scalar_ilog, IntUnique, Scalar, SignedScalar};

#[test]
fn min_max_pick_the_comparing_value() {
    assert_eq!(Scalar::min(2i32, 5i32), 2);
    assert_eq!(Scalar::max(2i32, 5i32), 5);
    assert_eq!(Scalar::min(5i32, 2i32), 2);
    assert_eq!(Scalar::max(5i32, 2i32), 5);
    assert_eq!(Scalar::min(-3i64, 3i64), -3);
    assert_eq!(Scalar::max(-3i64, 3i64), 3);
    assert_eq!(Scalar::min(7u32, 7u32), 7);
    assert_eq!(Scalar::max(7u32, 7u32), 7);
}

#[test]
fn min_max_agree_only_on_equal_values() {
    assert_eq!(Scalar::min(4i32, 4i32), Scalar::max(4i32, 4i32));
    assert_ne!(Scalar::min(4i32, 5i32), Scalar::max(4i32, 5i32));
}

#[test]
fn clamp_with_ordered_bounds() {
    assert_eq!(Scalar::clamp(5i32, 0i32, 10i32), 5);
    assert_eq!(Scalar::clamp(-5i32, 0i32, 10i32), 0);
    assert_eq!(Scalar::clamp(15i32, 0i32, 10i32), 10);
    assert_eq!(Scalar::clamp(0u8, 0u8, 3u8), 0);
    assert_eq!(Scalar::clamp(3u8, 0u8, 3u8), 3);
}

#[test]
fn clamp_with_inverted_bounds_returns_lo() {
    assert_eq!(Scalar::clamp(2i32, 10i32, 3i32), 10);
    assert_eq!(Scalar::clamp(100i32, 10i32, 3i32), 10);
    assert_eq!(Scalar::clamp(-100i32, 10i32, 3i32), 10);
}

#[test]
fn lerp_endpoints_and_line() {
    assert_eq!(2i32.lerp(10, 0), 2);
    assert_eq!(2i32.lerp(10, 1), 10);
    assert_eq!(0i64.lerp(10, 2), 20);
    assert_eq!(0i32.lerp(10, -1), -10);
}

#[test]
fn bezier_sample_endpoints() {
    assert_eq!(1i32.bezier_sample(5, 7, 8, 0), 1);
    assert_eq!(1i32.bezier_sample(5, 7, 8, 1), 8);
    assert_eq!((-4i64).bezier_sample(100, -100, 9, 0), -4);
    assert_eq!((-4i64).bezier_sample(100, -100, 9, 1), 9);
}

#[test]
fn bezier_derivative_values() {
    // At t == 0 the derivative is 3 * (c1 - p0); at t == 1 it is 3 * (p3 - c2).
    assert_eq!(0i32.bezier_derivative(1, 2, 3, 0), 3);
    assert_eq!(0i32.bezier_derivative(1, 2, 3, 1), 3);
    assert_eq!(5i32.bezier_derivative(5, 5, 5, 0), 0);
}

#[test]
fn cubic_interpolate_is_scaled_by_the_integer_half() {
    // Integer types give one half the value zero, so the whole blend
    // collapses to zero for them.
    assert_eq!(1i32.cubic_interpolate(5, -2, 9, 3), 0);
    assert_eq!(100i64.cubic_interpolate(-5, 0, 1, 2), 0);
}

#[test]
fn cubic_interpolate_in_time_zero_deltas_fall_back() {
    // With every key time zero each guard takes its fallback weight, and the
    // blend resolves to the pre-start handle.
    assert_eq!(1i32.cubic_interpolate_in_time(2, 4, 8, 5, 0, 0, 0), 4);
}

#[test]
fn cubic_interpolate_in_time_with_times() {
    assert_eq!(0i32.cubic_interpolate_in_time(10, -10, 20, 1, 2, -2, 4), 10);
}

#[test]
fn truncating_division_rounds_toward_zero() {
    assert_eq!((-7i32).div_t(2), -3);
    assert_eq!(7i32.div_t(-2), -3);
    assert_eq!((-7i32).div_t(-2), 3);
    assert_eq!(7i32.div_t(2), 3);
    assert_eq!(i128::MIN.div_t(1), i128::MIN);
    assert_eq!(i128::MIN.div_t(2), -(1i128 << 126));
}

#[test]
fn ilog_floors_the_logarithm() {
    assert_eq!(IntUnique::ilog(8i32, 2i32), 3);
    assert_eq!(IntUnique::ilog(7i32, 2i32), 2);
    assert_eq!(IntUnique::ilog(1i32, 2i32), 0);
    assert_eq!(IntUnique::ilog(100u32, 10u32), 2);
    assert_eq!(IntUnique::ilog(255u8, 2u8), 7);
    assert_eq!(scalar_ilog(81u64, 3u64), 4);
    assert_eq!(scalar_ilog(80u64, 3u64), 3);
    assert_eq!(IntUnique::ilog(i32::MAX, 2i32), 30);
    assert_eq!(IntUnique::ilog(u64::MAX, 2u64), 63);
    assert_eq!(IntUnique::ilog(5i32, 5i32), 1);
}

#[test]
fn unsigned_scalars_share_the_base_operations() {
    assert_eq!(2u32.lerp(10, 1), 10);
    assert_eq!(2u32.lerp(10, 0), 2);
    assert_eq!(Scalar::clamp(9u64, 1u64, 4u64), 4);
}
