use kernel::ieee::{f32_negate, F64_ONE, F64_ZERO};
use kernel::{Matrix4, Vector3};

#[test]
fn matrix_identity() {
    let m = Matrix4::identity();
    assert_eq!(f64::from_bits(m.elements[0]), 1.0);
    assert_eq!(f64::from_bits(m.elements[5]), 1.0);
    assert_eq!(f64::from_bits(m.elements[10]), 1.0);
    assert_eq!(f64::from_bits(m.elements[15]), 1.0);
}

#[test]
fn identity_has_ones_on_the_diagonal_and_zeros_elsewhere() {
    let m = Matrix4::identity();
    let expected: [f64; 16] = [
        1.0, 0.0, 0.0, 0.0, 0.0, 1.0, 0.0, 0.0, 0.0, 0.0, 1.0, 0.0, 0.0, 0.0, 0.0, 1.0,
    ];
    for i in 0..16 {
        assert_eq!(m.elements[i], expected[i].to_bits(), "element {}", i);
    }
}

#[test]
fn identity_is_column_major_diagonal() {
    let m = Matrix4::identity();
    for col in 0..4 {
        for row in 0..4 {
            let value = f64::from_bits(m.elements[4 * col + row]);
            assert_eq!(value, if row == col { 1.0 } else { 0.0 });
            assert!(value.is_sign_positive());
        }
    }
}

#[test]
fn the_constants_encode_zero_and_one() {
    assert_eq!(F64_ZERO, 0.0f64.to_bits());
    assert_eq!(F64_ONE, 1.0f64.to_bits());
}

#[test]
fn vector_new_keeps_each_component() {
    let v = Vector3::new(3.0f64.to_bits(), 4.0f64.to_bits(), (-0.5f64).to_bits());
    assert_eq!(f64::from_bits(v.x), 3.0);
    assert_eq!(f64::from_bits(v.y), 4.0);
    assert_eq!(f64::from_bits(v.z), -0.5);
}

#[test]
fn vector_new_keeps_a_nan_bit_for_bit() {
    let nan: u64 = 0x7FF8_0000_0000_1234;
    let v = Vector3::new(nan, nan, nan);
    assert_eq!(v.x, nan);
    assert!(f64::from_bits(v.y).is_nan());
    assert_eq!(v.z, nan);
}

#[test]
fn vector_zero_is_positive_zero() {
    let v = Vector3::zero();
    assert_eq!(v, Vector3::new(0, 0, 0));
    for bits in [v.x, v.y, v.z] {
        assert_eq!(f64::from_bits(bits), 0.0);
        assert!(f64::from_bits(bits).is_sign_positive());
    }
}

#[test]
fn negate_agrees_with_float_negation() {
    let samples: [f32; 9] = [
        0.0,
        -0.0,
        1.0,
        -1.0,
        2.5,
        f32::MIN_POSITIVE / 4.0,
        f32::MAX,
        f32::INFINITY,
        f32::NEG_INFINITY,
    ];
    for x in samples {
        assert_eq!(f32_negate(x.to_bits()), (-x).to_bits(), "negating {}", x);
    }
}

#[test]
fn negate_flips_only_the_sign_of_a_nan() {
    let nan: u32 = 0x7FC0_0001;
    assert_eq!(f32_negate(nan), 0xFFC0_0001);
    assert_eq!(f32_negate(nan), (-f32::from_bits(nan)).to_bits());
    assert!(f32::from_bits(f32_negate(nan)).is_nan());
}

#[test]
fn negate_twice_gives_the_value_back() {
    for bits in [0u32, 1, 0x3F80_0000, 0x7FFF_FFFF, 0x8000_0000, 0xBF80_0000, 0xFFFF_FFFF] {
        assert_eq!(f32_negate(f32_negate(bits)), bits);
        assert_ne!(f32_negate(bits), bits);
    }
}
