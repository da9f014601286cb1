//! Numeric-kernel behavior on concrete values: every lane crosses the
//! library boundary as the `u32` bit pattern of an IEEE-754 binary32 value.

use simd_abi::{Float2, Float3};

fn f3(x: f32, y: f32, z: f32) -> Float3 {
    Float3::new(x.to_bits(), y.to_bits(), z.to_bits())
}

fn lanes(v: &Float3) -> (f32, f32, f32) {
    (
        f32::from_bits(v.x()),
        f32::from_bits(v.y()),
        f32::from_bits(v.z()),
    )
}

#[test]
fn fast_normalize_is_close_to_unit_length() {
    let v = f3(1.0, 2.0, 3.0);
    let n = v.fast_normalize();
    let (x, y, z) = lanes(&n);
    assert!((x - 0.267).abs() < 0.1);
    assert!((y - 0.535).abs() < 0.1);
    assert!((z - 0.802).abs() < 0.1);
    let ls = f32::from_bits(n.length_squared());
    assert!((ls - 1.0).abs() < 0.05);
}

#[test]
fn fast_rsqrt_approximates_reciprocal_square_root() {
    let v = Float2::new(1.0f32.to_bits(), 25.0f32.to_bits());
    let r = v.fast_rsqrt();
    let x = f32::from_bits(r.x());
    let y = f32::from_bits(r.y());
    assert!((x - 1.0).abs() < 0.1);
    assert!((y - 0.2).abs() < 0.1);
    // Relative error stays well within the unrefined-instruction class.
    assert!((y - 0.2).abs() / 0.2 < 1e-1);
}

#[test]
fn fast_rsqrt_single_lane_carrier() {
    // 1/sqrt(4) is exactly representable, and the one refinement step maps
    // an exact estimate to itself: the result is exactly 0.5.
    let c = Float2::from_undef(4.0f32.to_bits());
    let r = c.fast_rsqrt();
    assert_eq!(r.x(), 0.5f32.to_bits());
}

#[test]
fn zero_vector_lanes_encode_positive_zero() {
    let z = Float3::zero();
    assert_eq!(z.x(), 0.0f32.to_bits());
    assert_eq!(z.y(), 0.0f32.to_bits());
    assert_eq!(z.z(), 0.0f32.to_bits());
    assert!(z == f3(0.0, 0.0, 0.0));
}

#[test]
fn abs_clears_the_sign_lane_wise() {
    let v = f3(0.0, -20.0, 13370000.0);
    let a = v.abs();
    assert_eq!(a.x(), 0.0f32.to_bits());
    assert_eq!(a.y(), 20.0f32.to_bits());
    assert_eq!(a.z(), 13370000.0f32.to_bits());
}

#[test]
fn abs_of_negative_zero_is_positive_zero() {
    let v = f3(-0.0, -1.5, -3.25);
    let a = v.abs();
    assert_eq!(a.x(), 0.0f32.to_bits());
    assert_eq!(a.y(), 1.5f32.to_bits());
    assert_eq!(a.z(), 3.25f32.to_bits());
}

#[test]
fn dot_is_symmetric_bit_for_bit() {
    let pairs = [
        (f3(1.0, 2.0, 3.0), f3(4.0, 5.0, 6.0)),
        (f3(0.1, -0.2, 0.3), f3(7.5, 0.033, -81.25)),
        (f3(1e30, -1e-30, 2.5), f3(-3.5e-10, 1e20, 0.0)),
    ];
    for (a, b) in pairs {
        assert_eq!(a.dot(b), b.dot(a));
    }
}

#[test]
fn dot_exact_value() {
    let a = f3(1.0, 2.0, 3.0);
    let b = f3(4.0, 5.0, 6.0);
    assert_eq!(a.dot(b), 32.0f32.to_bits());
}

#[test]
fn length_squared_exact_value() {
    let v = f3(1.0, 2.0, 3.0);
    assert_eq!(v.length_squared(), 14.0f32.to_bits());
}

#[test]
fn precise_length_exact_on_a_pythagorean_triple() {
    let v = f3(3.0, 4.0, 0.0);
    assert_eq!(v.precise_length(), 5.0f32.to_bits());
}

#[test]
fn fast_length_matches_precise_length() {
    let vs = [
        f3(1.0, 2.0, 3.0),
        f3(0.0, 0.0, 0.0),
        f3(-7.25, 0.033, 81.5),
        f3(1e-20, -1e20, 3.0),
    ];
    for v in vs {
        assert_eq!(v.fast_length(), v.precise_length());
    }
}

#[test]
fn elementwise_add_exact_value() {
    let r = f3(1.5, 2.25, -3.0).elementwise_add(f3(2.25, 0.5, 1.0));
    let (x, y, z) = lanes(&r);
    assert_eq!((x, y, z), (3.75, 2.75, -2.0));
}

#[test]
fn elementwise_sub_exact_value() {
    let r = f3(1.5, 2.25, -3.0).elementwise_sub(f3(2.25, 0.5, 1.0));
    let (x, y, z) = lanes(&r);
    assert_eq!((x, y, z), (-0.75, 1.75, -4.0));
}

#[test]
fn elementwise_mult_exact_value() {
    let r = f3(1.5, -2.0, 3.0).elementwise_mult(f3(2.0, 0.25, -1.0));
    let (x, y, z) = lanes(&r);
    assert_eq!((x, y, z), (3.0, -0.5, -3.0));
}

#[test]
fn elementwise_mult_scalar_exact_value() {
    let r = f3(1.5, -2.0, 3.0).elementwise_mult_scalar(0.5f32.to_bits());
    let (x, y, z) = lanes(&r);
    assert_eq!((x, y, z), (0.75, -1.0, 1.5));
}

#[test]
fn reduce_add_keeps_the_summation_order() {
    // (2^24 + 1) + 1 rounds to 2^24 twice; the other association would give
    // 2^24 + 2. The fixed x + y + z order must be preserved exactly.
    let v = f3(16777216.0, 1.0, 1.0);
    let r = v.reduce_add();
    assert_eq!(r, 16777216.0f32.to_bits());
    assert_ne!(r, 16777218.0f32.to_bits());
}

#[test]
fn float2_elementwise_mult_exact_value() {
    let a = Float2::new(2.0f32.to_bits(), 3.0f32.to_bits());
    let b = Float2::new(4.0f32.to_bits(), 0.5f32.to_bits());
    let r = a.elementwise_mult(b);
    assert_eq!(f32::from_bits(r.x()), 8.0);
    assert_eq!(f32::from_bits(r.y()), 1.5);
}

#[test]
fn float2_accessors() {
    let v = Float2::new(1.25f32.to_bits(), (-2.5f32).to_bits());
    assert_eq!(f32::from_bits(v.x()), 1.25);
    assert_eq!(f32::from_bits(v.y()), -2.5);
    let u = Float2::from_undef(6.0f32.to_bits());
    assert_eq!(f32::from_bits(u.x()), 6.0);
}

#[test]
fn bitselect_mixes_bits_lane_wise() {
    let x = Float3::new(0x1234_5678, 0xFFFF_FFFF, 0x0000_0000);
    let y = Float3::new(0xABCD_EF01, 0x0000_0000, 0xFFFF_FFFF);
    let m = Float3::new(0x0000_FFFF, 0x0F0F_0F0F, 0xFFFF_0000);
    let r = x.bitselect(y, m);
    assert_eq!(r.x(), 0x1234_EF01);
    assert_eq!(r.y(), 0xF0F0_F0F0);
    assert_eq!(r.z(), 0xFFFF_0000);
}

#[test]
fn reinterpretation_round_trips_lane_bits() {
    let v = Float3::new(0x8000_0001, 0x7F80_0000, 0xDEAD_BEEF);
    let r = Float3::reinterpret_from_int(v.reinterpret_int());
    assert_eq!(r.x(), 0x8000_0001);
    assert_eq!(r.y(), 0x7F80_0000);
    assert_eq!(r.z(), 0xDEAD_BEEF);
}

#[test]
fn fast_normalize_is_total_on_a_zero_vector() {
    // The numeric result on a zero magnitude is unspecified (the lanes
    // encode infinities or NaNs), but the kernel is total: it must return.
    let _ = f3(0.0, 0.0, 0.0).fast_normalize();
}

#[test]
fn fast_rsqrt_is_total_on_zero_and_negative_lanes() {
    let _ = Float2::new(0.0f32.to_bits(), (-4.0f32).to_bits()).fast_rsqrt();
}

#[test]
fn float3_lane_mutators() {
    let mut v = f3(1.0, 2.0, 3.0);
    *v.x_mut() = 10.0f32.to_bits();
    *v.y_mut() = 20.0f32.to_bits();
    *v.z_mut() = 30.0f32.to_bits();
    let (x, y, z) = lanes(&v);
    assert_eq!((x, y, z), (10.0, 20.0, 30.0));
}
