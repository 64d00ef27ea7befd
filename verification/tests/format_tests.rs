//! Storage-format, image-format and wire-tag resolution.

use uniform_core::composites::{Color, Matrix2, Matrix3, Matrix4, Vector2, Vector3, Vector4};
use uniform_core::data::{format_from_data_type, DataType};
use uniform_core::error::CoreError;
use uniform_core::kind::{
    image_format, storage_format, BaseKind, BYTE, FLOAT, HALF_FLOAT, INT, R16F, R16I, R16UI, R32F,
    R32I, R32UI, R8, R8I, RED, RG, RG16F, RG16I, RG16UI, RG32F, RG32I, RG32UI, RG8, RG8I, RGB,
    RGB16F, RGB16I, RGB16UI, RGB32F, RGB32I, RGB32UI, RGB8, RGB8I, RGBA, RGBA16F, RGBA16I,
    RGBA16UI, RGBA32F, RGBA32I, RGBA32UI, RGBA8, RGBA8I, SHORT, UNSIGNED_BYTE, UNSIGNED_INT,
    UNSIGNED_SHORT,
};
use uniform_core::data::{UniformType, WideData};
use uniform_core::scalars::{F16, F32};

#[test]
fn storage_format_full_table() {
    let expected: [(BaseKind, [u32; 4]); 8] = [
        (BaseKind::UInt8, [R8, RG8, RGB8, RGBA8]),
        (BaseKind::UInt16, [R16UI, RG16UI, RGB16UI, RGBA16UI]),
        (BaseKind::UInt32, [R32UI, RG32UI, RGB32UI, RGBA32UI]),
        (BaseKind::Int8, [R8I, RG8I, RGB8I, RGBA8I]),
        (BaseKind::Int16, [R16I, RG16I, RGB16I, RGBA16I]),
        (BaseKind::Int32, [R32I, RG32I, RGB32I, RGBA32I]),
        (BaseKind::Float16, [R16F, RG16F, RGB16F, RGBA16F]),
        (BaseKind::Float32, [R32F, RG32F, RGB32F, RGBA32F]),
    ];
    for (kind, tags) in expected.iter() {
        for count in 1u32..=4 {
            assert_eq!(
                storage_format(*kind, count).unwrap(),
                tags[(count - 1) as usize]
            );
        }
    }
}

#[test]
fn storage_format_is_idempotent() {
    for count in 1u32..=4 {
        let first = storage_format(BaseKind::Float32, count).unwrap();
        let second = storage_format(BaseKind::Float32, count).unwrap();
        assert_eq!(first, second);
    }
}

#[test]
fn storage_format_rejects_out_of_range_counts() {
    assert!(matches!(
        storage_format(BaseKind::UInt8, 0),
        Err(CoreError::IndexOutOfRange(0, 4))
    ));
    assert!(matches!(
        storage_format(BaseKind::Float32, 5),
        Err(CoreError::IndexOutOfRange(5, 4))
    ));
}

#[test]
fn image_format_table() {
    assert_eq!(image_format(1).unwrap(), RED);
    assert_eq!(image_format(2).unwrap(), RG);
    assert_eq!(image_format(3).unwrap(), RGB);
    assert_eq!(image_format(4).unwrap(), RGBA);
}

#[test]
fn image_format_rejects_out_of_range_counts() {
    assert!(matches!(
        image_format(0),
        Err(CoreError::IndexOutOfRange(0, 4))
    ));
    assert!(matches!(
        image_format(5),
        Err(CoreError::IndexOutOfRange(5, 4))
    ));
}

#[test]
fn format_from_data_type_follows_component_count() {
    assert_eq!(format_from_data_type::<u8>().unwrap(), RED);
    assert_eq!(format_from_data_type::<Vector2<u32>>().unwrap(), RG);
    assert_eq!(format_from_data_type::<Vector3<F32>>().unwrap(), RGB);
    assert_eq!(format_from_data_type::<Vector4<i16>>().unwrap(), RGBA);
    assert_eq!(format_from_data_type::<Color>().unwrap(), RGBA);
    assert_eq!(format_from_data_type::<Matrix2<F32>>().unwrap(), RGBA);
}

#[test]
fn format_from_data_type_rejects_matrix_element_counts() {
    assert!(matches!(
        format_from_data_type::<Matrix3<F32>>(),
        Err(CoreError::IndexOutOfRange(9, 4))
    ));
    assert!(matches!(
        format_from_data_type::<Matrix4<F32>>(),
        Err(CoreError::IndexOutOfRange(16, 4))
    ));
}

#[test]
fn internal_format_of_composites() {
    assert_eq!(<u8 as DataType>::internal_format(), R8);
    assert_eq!(<F16 as DataType>::internal_format(), R16F);
    assert_eq!(<Vector2<u8> as DataType>::internal_format(), RG8);
    assert_eq!(<Vector3<u16> as DataType>::internal_format(), RGB16UI);
    assert_eq!(<Vector4<i8> as DataType>::internal_format(), RGBA8I);
    assert_eq!(<Color as DataType>::internal_format(), RGBA8);
    assert_eq!(<Matrix2<F32> as DataType>::internal_format(), RGBA32F);
}

#[test]
fn array_formats_match_vector_formats() {
    assert_eq!(format_from_data_type::<[u16; 2]>().unwrap(), RG);
    assert_eq!(<[u16; 2] as DataType>::internal_format(), RG16UI);
    assert_eq!(<[F32; 4] as DataType>::internal_format(), RGBA32F);
    assert_eq!(<[i32; 3] as DataType>::size(), 3);
}

#[test]
fn wire_tags_per_kind() {
    assert_eq!(<u8 as DataType>::data_type(), UNSIGNED_BYTE);
    assert_eq!(<u16 as DataType>::data_type(), UNSIGNED_SHORT);
    assert_eq!(<u32 as DataType>::data_type(), UNSIGNED_INT);
    assert_eq!(<i8 as DataType>::data_type(), BYTE);
    assert_eq!(<i16 as DataType>::data_type(), SHORT);
    assert_eq!(<i32 as DataType>::data_type(), INT);
    assert_eq!(<F16 as DataType>::data_type(), HALF_FLOAT);
    assert_eq!(<F32 as DataType>::data_type(), FLOAT);
    assert_eq!(<Color as DataType>::data_type(), UNSIGNED_BYTE);
    assert_eq!(<Vector3<F32> as DataType>::data_type(), FLOAT);
}

#[test]
fn component_counts() {
    assert_eq!(<u32 as DataType>::size(), 1);
    assert_eq!(<Vector2<u32> as DataType>::size(), 2);
    assert_eq!(<Vector3<u32> as DataType>::size(), 3);
    assert_eq!(<Vector4<u32> as DataType>::size(), 4);
    assert_eq!(<Color as DataType>::size(), 4);
    assert_eq!(<Matrix2<F32> as DataType>::size(), 4);
    assert_eq!(<Matrix3<F32> as DataType>::size(), 9);
    assert_eq!(<Matrix4<F32> as DataType>::size(), 16);
}

#[test]
fn promotion_targets_per_kind() {
    assert_eq!(BaseKind::UInt8.promoted(), BaseKind::UInt32);
    assert_eq!(BaseKind::UInt16.promoted(), BaseKind::UInt32);
    assert_eq!(BaseKind::UInt32.promoted(), BaseKind::UInt32);
    assert_eq!(BaseKind::Int8.promoted(), BaseKind::Int32);
    assert_eq!(BaseKind::Int16.promoted(), BaseKind::Int32);
    assert_eq!(BaseKind::Int32.promoted(), BaseKind::Int32);
    assert_eq!(BaseKind::Float16.promoted(), BaseKind::Float32);
    assert_eq!(BaseKind::Float32.promoted(), BaseKind::Float32);
}

#[test]
fn flat_counts_per_rank() {
    assert_eq!(UniformType::Value.flat_count(), 1);
    assert_eq!(UniformType::Vec2.flat_count(), 2);
    assert_eq!(UniformType::Vec3.flat_count(), 3);
    assert_eq!(UniformType::Vec4.flat_count(), 4);
    assert_eq!(UniformType::Mat2.flat_count(), 4);
    assert_eq!(UniformType::Mat3.flat_count(), 9);
    assert_eq!(UniformType::Mat4.flat_count(), 16);
}

#[test]
fn transfer_run_length_is_count_times_flat_count() {
    let values = vec![
        Vector3 { x: F32 { bits: 0 }, y: F32 { bits: 0 }, z: F32 { bits: 0 } };
        5
    ];
    let t = <Vector3<F32> as DataType>::send_uniform(&values).unwrap();
    assert_eq!(t.data.len(), 5 * t.rank.flat_count() as usize);
    match &t.data {
        WideData::Float(v) => assert_eq!(v.len(), 15),
        _ => panic!("expected a float run"),
    }
}
