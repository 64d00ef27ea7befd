//! The uniform dispatch engine: flattening, widening and rank selection.

use uniform_core::composites::{Color, Matrix2, Matrix3, Quaternion, Vector2, Vector3};
use uniform_core::data::{DataType, PrimitiveDataType, UniformType, WideData};
use uniform_core::error::CoreError;
use uniform_core::scalars::{F16, F32};

fn f(x: f32) -> F32 {
    F32 { bits: x.to_bits() }
}

fn floats_of(data: &WideData) -> Vec<f32> {
    match data {
        WideData::Float(v) => v.iter().map(|b| f32::from_bits(*b)).collect(),
        _ => panic!("expected a float run"),
    }
}

#[test]
fn vector3_flattens_in_component_order() {
    let values = vec![Vector3 { x: f(1.0), y: f(2.0), z: f(3.0) }];
    let t = <Vector3<F32> as DataType>::send_uniform(&values).unwrap();
    assert!(matches!(t.rank, UniformType::Vec3));
    assert_eq!(floats_of(&t.data), vec![1.0, 2.0, 3.0]);
}

#[test]
fn quaternion_flattens_scalar_part_last() {
    let values = vec![Quaternion {
        v: Vector3 { x: f(1.0), y: f(0.0), z: f(0.0) },
        s: f(5.0),
    }];
    let t = <Quaternion<F32> as DataType>::send_uniform(&values).unwrap();
    assert!(matches!(t.rank, UniformType::Vec4));
    assert_eq!(floats_of(&t.data), vec![1.0, 0.0, 0.0, 5.0]);
}

#[test]
fn color_sends_as_normalized_floats() {
    let values = vec![Color { r: 255, g: 128, b: 0, a: 255 }];
    let t = <Color as DataType>::send_uniform(&values).unwrap();
    assert!(matches!(t.rank, UniformType::Vec4));
    let floats = floats_of(&t.data);
    let expected = [1.0f32, 0.50196, 0.0, 1.0];
    for (got, want) in floats.iter().zip(expected.iter()) {
        assert!((got - want).abs() <= 1.0 / 255.0);
    }
}

#[test]
fn matrix2_flattens_column_major() {
    let values = vec![Matrix2 {
        x: Vector2 { x: f(1.0), y: f(2.0) },
        y: Vector2 { x: f(3.0), y: f(4.0) },
    }];
    let t = <Matrix2<F32> as DataType>::send_uniform(&values).unwrap();
    assert!(matches!(t.rank, UniformType::Mat2));
    assert_eq!(floats_of(&t.data), vec![1.0, 2.0, 3.0, 4.0]);
}

#[test]
fn matrix3_flattens_columns_concatenated() {
    let values = vec![Matrix3 {
        x: Vector3 { x: f(1.0), y: f(2.0), z: f(3.0) },
        y: Vector3 { x: f(4.0), y: f(5.0), z: f(6.0) },
        z: Vector3 { x: f(7.0), y: f(8.0), z: f(9.0) },
    }];
    let t = <Matrix3<F32> as DataType>::send_uniform(&values).unwrap();
    assert!(matches!(t.rank, UniformType::Mat3));
    assert_eq!(
        floats_of(&t.data),
        vec![1.0, 2.0, 3.0, 4.0, 5.0, 6.0, 7.0, 8.0, 9.0]
    );
}

#[test]
fn narrow_unsigned_kinds_widen_to_u32() {
    let values: Vec<u8> = vec![1, 2, 3];
    let t = <u8 as DataType>::send_uniform(&values).unwrap();
    assert!(matches!(t.rank, UniformType::Value));
    match &t.data {
        WideData::UInt(v) => assert_eq!(v, &vec![1u32, 2, 3]),
        _ => panic!("expected a 32-bit unsigned run"),
    }

    let values16: Vec<u16> = vec![65535, 7];
    let t16 = <u16 as DataType>::send_uniform(&values16).unwrap();
    match &t16.data {
        WideData::UInt(v) => assert_eq!(v, &vec![65535u32, 7]),
        _ => panic!("expected a 32-bit unsigned run"),
    }
}

#[test]
fn narrow_signed_kinds_widen_to_i32() {
    let values: Vec<i8> = vec![-1, 2, -128];
    let t = <i8 as DataType>::send_uniform(&values).unwrap();
    match &t.data {
        WideData::Int(v) => assert_eq!(v, &vec![-1i32, 2, -128]),
        _ => panic!("expected a 32-bit signed run"),
    }

    let values16: Vec<i16> = vec![-32768, 32767];
    let t16 = <i16 as DataType>::send_uniform(&values16).unwrap();
    match &t16.data {
        WideData::Int(v) => assert_eq!(v, &vec![-32768i32, 32767]),
        _ => panic!("expected a 32-bit signed run"),
    }
}

#[test]
fn half_floats_widen_to_f32() {
    // 1.0, -2.0 and 0.5 in 16-bit float bit patterns.
    let values = vec![F16 { bits: 0x3C00 }, F16 { bits: 0xC000 }, F16 { bits: 0x3800 }];
    let t = <F16 as DataType>::send_uniform(&values).unwrap();
    assert_eq!(floats_of(&t.data), vec![1.0, -2.0, 0.5]);
}

#[test]
fn integer_matrices_are_unsupported() {
    let values = vec![Matrix2 {
        x: Vector2 { x: 1u32, y: 2u32 },
        y: Vector2 { x: 3u32, y: 4u32 },
    }];
    assert!(matches!(
        <Matrix2<u32> as DataType>::send_uniform(&values),
        Err(CoreError::UnsupportedUniformType)
    ));

    let flat: Vec<i32> = vec![1, 2, 3, 4];
    assert!(matches!(
        <i32 as PrimitiveDataType>::send_uniform_with_type(&flat, UniformType::Mat2),
        Err(CoreError::UnsupportedUniformType)
    ));
    assert!(matches!(
        <u32 as PrimitiveDataType>::send_uniform_with_type(&flat.iter().map(|v| *v as u32).collect(), UniformType::Mat3),
        Err(CoreError::UnsupportedUniformType)
    ));
}

#[test]
fn integer_vectors_are_supported() {
    let values = vec![Vector2 { x: 10u32, y: 20u32 }, Vector2 { x: 30u32, y: 40u32 }];
    let t = <Vector2<u32> as DataType>::send_uniform(&values).unwrap();
    assert!(matches!(t.rank, UniformType::Vec2));
    match &t.data {
        WideData::UInt(v) => assert_eq!(v, &vec![10u32, 20, 30, 40]),
        _ => panic!("expected a 32-bit unsigned run"),
    }
}

#[test]
fn empty_arrays_still_dispatch() {
    let values: Vec<u8> = vec![];
    let t = <u8 as DataType>::send_uniform(&values).unwrap();
    match &t.data {
        WideData::UInt(v) => assert!(v.is_empty()),
        _ => panic!("expected a 32-bit unsigned run"),
    }
}

#[test]
fn explicit_rank_dispatch_keeps_rank() {
    let flat: Vec<f32> = vec![1.0, 2.0, 3.0, 4.0];
    let flat: Vec<F32> = flat.into_iter().map(f).collect();
    let t = <F32 as PrimitiveDataType>::send_uniform_with_type(&flat, UniformType::Mat2).unwrap();
    assert!(matches!(t.rank, UniformType::Mat2));
    assert_eq!(floats_of(&t.data), vec![1.0, 2.0, 3.0, 4.0]);
}

#[test]
fn arrays_classify_like_vectors() {
    let pairs: Vec<[u8; 2]> = vec![[1, 2], [3, 4]];
    let t = <[u8; 2] as DataType>::send_uniform(&pairs).unwrap();
    assert!(matches!(t.rank, UniformType::Vec2));
    match &t.data {
        WideData::UInt(v) => assert_eq!(v, &vec![1u32, 2, 3, 4]),
        _ => panic!("expected a 32-bit unsigned run"),
    }

    let triples: Vec<[F32; 3]> = vec![[f(1.0), f(2.0), f(3.0)]];
    let t3 = <[F32; 3] as DataType>::send_uniform(&triples).unwrap();
    assert!(matches!(t3.rank, UniformType::Vec3));
    assert_eq!(floats_of(&t3.data), vec![1.0, 2.0, 3.0]);

    let quads: Vec<[i16; 4]> = vec![[-1, 0, 1, 2]];
    let t4 = <[i16; 4] as DataType>::send_uniform(&quads).unwrap();
    assert!(matches!(t4.rank, UniformType::Vec4));
    match &t4.data {
        WideData::Int(v) => assert_eq!(v, &vec![-1i32, 0, 1, 2]),
        _ => panic!("expected a 32-bit signed run"),
    }
}
