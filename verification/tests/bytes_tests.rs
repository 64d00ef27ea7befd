//! The byte-reinterpretation bridge: exact layouts and round trips.

use uniform_core::bytes::{from_byte_slice, to_byte_slice};
use uniform_core::composites::{Color, Matrix2, Quaternion, Vector2, Vector3};
use uniform_core::error::CoreError;
use uniform_core::scalars::{F16, F32};

#[test]
fn scalar_layouts_are_little_endian() {
    assert_eq!(to_byte_slice(&vec![0x01020304u32]), vec![4, 3, 2, 1]);
    assert_eq!(to_byte_slice(&vec![0x0102u16]), vec![2, 1]);
    assert_eq!(to_byte_slice(&vec![0xABu8]), vec![0xAB]);
    assert_eq!(to_byte_slice(&vec![-1i16]), vec![0xFF, 0xFF]);
    assert_eq!(to_byte_slice(&vec![-128i8]), vec![0x80]);
    assert_eq!(to_byte_slice(&vec![-2i32]), vec![0xFE, 0xFF, 0xFF, 0xFF]);
    assert_eq!(
        to_byte_slice(&vec![F32 { bits: 1.0f32.to_bits() }]),
        1.0f32.to_bits().to_le_bytes().to_vec()
    );
    assert_eq!(to_byte_slice(&vec![F16 { bits: 0x3C00 }]), vec![0x00, 0x3C]);
}

#[test]
fn composite_layouts_concatenate_components() {
    let v = vec![Vector2 { x: 0x0102u16, y: 0x0304u16 }];
    assert_eq!(to_byte_slice(&v), vec![2, 1, 4, 3]);

    let c = vec![Color { r: 1, g: 2, b: 3, a: 4 }];
    assert_eq!(to_byte_slice(&c), vec![1, 2, 3, 4]);

    let q = vec![Quaternion {
        v: Vector3 { x: 1u8, y: 2u8, z: 3u8 },
        s: 4u8,
    }];
    assert_eq!(to_byte_slice(&q), vec![1, 2, 3, 4]);
}

#[test]
fn round_trip_scalars() {
    let u: Vec<u32> = vec![0, 1, 0xFFFFFFFF, 0xDEADBEEF];
    assert_eq!(from_byte_slice::<u32>(&to_byte_slice(&u)).unwrap(), u);

    let i: Vec<i16> = vec![-32768, -1, 0, 1, 32767];
    assert_eq!(from_byte_slice::<i16>(&to_byte_slice(&i)).unwrap(), i);

    let b: Vec<i8> = vec![-128, -1, 0, 127];
    assert_eq!(from_byte_slice::<i8>(&to_byte_slice(&b)).unwrap(), b);

    let h: Vec<F16> = vec![F16 { bits: 0x0000 }, F16 { bits: 0x3C00 }, F16 { bits: 0xFFFF }];
    assert_eq!(from_byte_slice::<F16>(&to_byte_slice(&h)).unwrap(), h);
}

#[test]
fn round_trip_composites() {
    let v = vec![
        Vector3 { x: 1u16, y: 2u16, z: 3u16 },
        Vector3 { x: 60000u16, y: 0u16, z: 9u16 },
    ];
    assert_eq!(from_byte_slice::<Vector3<u16>>(&to_byte_slice(&v)).unwrap(), v);

    let m = vec![Matrix2 {
        x: Vector2 { x: F32 { bits: 1.5f32.to_bits() }, y: F32 { bits: (-2.5f32).to_bits() } },
        y: Vector2 { x: F32 { bits: 0.0f32.to_bits() }, y: F32 { bits: 4.0f32.to_bits() } },
    }];
    assert_eq!(from_byte_slice::<Matrix2<F32>>(&to_byte_slice(&m)).unwrap(), m);

    let q = vec![Quaternion {
        v: Vector3 { x: -1i32, y: 7i32, z: 100000i32 },
        s: -100000i32,
    }];
    assert_eq!(from_byte_slice::<Quaternion<i32>>(&to_byte_slice(&q)).unwrap(), q);

    let c = vec![Color { r: 255, g: 0, b: 128, a: 7 }];
    assert_eq!(from_byte_slice::<Color>(&to_byte_slice(&c)).unwrap(), c);
}

#[test]
fn round_trip_arrays() {
    let v: Vec<[u16; 3]> = vec![[1, 2, 3], [60000, 0, 9]];
    assert_eq!(from_byte_slice::<[u16; 3]>(&to_byte_slice(&v)).unwrap(), v);
    let w: Vec<[i8; 2]> = vec![[-128, 127]];
    assert_eq!(from_byte_slice::<[i8; 2]>(&to_byte_slice(&w)).unwrap(), w);
}

#[test]
fn from_bytes_decodes_chunks_in_order() {
    let bytes: Vec<u8> = vec![1, 0, 0, 0, 2, 0, 0, 0];
    assert_eq!(from_byte_slice::<u32>(&bytes).unwrap(), vec![1u32, 2u32]);
}

#[test]
fn from_bytes_rejects_partial_chunks() {
    let bytes: Vec<u8> = vec![1, 2, 3, 4, 5];
    match from_byte_slice::<u32>(&bytes) {
        Err(CoreError::InvalidBufferLength(label, want, got)) => {
            assert_eq!(label, "byte");
            assert_eq!(want, 4);
            assert_eq!(got, 5);
        }
        other => panic!("expected a length error, got {:?}", other),
    }
    assert!(from_byte_slice::<Vector2<u16>>(&vec![0u8; 6]).is_err());
    assert!(from_byte_slice::<Vector2<u16>>(&vec![0u8; 8]).is_ok());
}

#[test]
fn empty_byte_runs_decode_to_empty_arrays() {
    let bytes: Vec<u8> = vec![];
    assert_eq!(from_byte_slice::<u32>(&bytes).unwrap(), vec![]);
    let none: Vec<Color> = vec![];
    assert_eq!(to_byte_slice(&none), vec![] as Vec<u8>);
}
