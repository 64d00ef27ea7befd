//! The composite data types.
//!
//! Vectors of 2, 3 and 4 components, quaternions, packed colors and square
//! matrices, the named-shape counterparts of the fixed-size arrays.
//! A uniform transfer flattens an array of composites into one flat scalar
//! run: vectors in component order x, y, z, w; quaternions with the scalar
//! part last; matrices column-major with columns concatenated; colors as
//! four channels normalized to floats.

use crate::bits::{norm_channel_bits, spec_norm_bits};
use crate::data::{
    DataType, PrimitiveDataType, UniformTransfer, UniformType, Wide, WideData, WideKind,
};
use crate::error::CoreError;
use crate::flat::lemma_map_of_flat_map;
use crate::kind::BaseKind;
use crate::scalars::F32;
use vstd::prelude::*;

verus! {

/// A 2-component vector.
#[derive(Clone, Copy, Debug, PartialEq, Eq)]
pub struct Vector2<T> {
    pub x: T,
    pub y: T,
}

impl<T: PrimitiveDataType> DataType for Vector2<T> {
    open spec fn base_kind_spec() -> BaseKind {
        T::base_kind_spec()
    }

    open spec fn size_spec() -> u32 {
        2
    }

    open spec fn rank_spec() -> UniformType {
        UniformType::Vec2
    }

    open spec fn wide_kind_spec() -> WideKind {
        T::wide_kind_spec()
    }

    open spec fn wide_flat_spec(self) -> Seq<Wide> {
        seq![self.x.promote_spec(), self.y.promote_spec()]
    }

    open spec fn bytes_spec(self) -> Seq<u8> {
        self.x.bytes_spec() + self.y.bytes_spec()
    }

    open spec fn byte_len_spec() -> nat {
        2 * T::byte_len_spec()
    }

    open spec fn decode_spec(b: Seq<u8>) -> Vector2<T> {
        let l = T::byte_len_spec() as int;
        Vector2 { x: T::decode_spec(b.subrange(0, l)), y: T::decode_spec(b.subrange(l, 2 * l)) }
    }

    proof fn lemma_byte_len_pos() {
        T::lemma_scalar_width();
    }

    proof fn lemma_wf(self) {
        let l = T::byte_len_spec() as int;
        self.x.lemma_wf();
        self.y.lemma_wf();
        let b = self.bytes_spec();
        assert(b.subrange(0, l) =~= self.x.bytes_spec());
        assert(b.subrange(l, 2 * l) =~= self.y.bytes_spec());
    }

    fn internal_format() -> u32 {
        T::internal_format_with_size(2)
    }

    fn data_type() -> u32 {
        T::data_type()
    }

    fn size() -> u32 {
        2
    }

    fn send_uniform(data: &Vec<Vector2<T>>) -> (r: Result<UniformTransfer, CoreError>) {
        let ghost el = |v: Vector2<T>| seq![v.x, v.y];
        let mut flat: Vec<T> = Vec::new();
        proof {
            assert(data@.take(0).map_values(el) =~= Seq::<Seq<T>>::empty());
            assert(flat@ =~= data@.take(0).flat_map(el));
        }
        let mut i: usize = 0;
        while i < data.len()
            invariant
                i <= data.len(),
                flat@ == data@.take(i as int).flat_map(el),
                el == (|v: Vector2<T>| seq![v.x, v.y]),
            decreases data.len() - i,
        {
            let v = data[i];
            flat.push(v.x);
            flat.push(v.y);
            proof {
                data@.lemma_flat_map_take_append(el, i as int);
                assert(flat@ =~= data@.take(i as int).flat_map(el) + el(data@[i as int]));
            }
            i += 1;
        }
        proof {
            assert(data@.take(data.len() as int) =~= data@);
        }
        let r = T::send_uniform_with_type(&flat, UniformType::Vec2);
        proof {
            let pm = |v: T| v.promote_spec();
            let wf = |v: Vector2<T>| v.wide_flat_spec();
            assert forall|j: int| 0 <= j < data@.len() implies wf(data@[j]) == el(
                data@[j],
            ).map_values(pm) by {
                assert(el(data@[j]).map_values(pm) =~= data@[j].wide_flat_spec());
            }
            lemma_map_of_flat_map(data@, el, pm, wf);
        }
        r
    }

    fn byte_len() -> usize {
        proof {
            T::lemma_scalar_width();
        }
        2 * T::byte_len()
    }

    fn append_bytes(&self, out: &mut Vec<u8>) {
        self.x.append_bytes(out);
        self.y.append_bytes(out);
        proof {
            assert(out@ =~= old(out)@ + self.bytes_spec());
        }
    }

    fn decode_at(bytes: &[u8], i: usize) -> (r: Vector2<T>) {
        proof {
            T::lemma_scalar_width();
        }
        // The call binds the slice length, whose usize bound the offset
        // arithmetic below needs.
        let n = bytes.len();
        let l = T::byte_len();
        let x = T::decode_at(bytes, i);
        let y = T::decode_at(bytes, i + l);
        proof {
            let li = T::byte_len_spec() as int;
            let sub = bytes@.subrange(i as int, i + Self::byte_len_spec());
            assert(sub.subrange(0, li) =~= bytes@.subrange(i as int, i as int + li));
            assert(sub.subrange(li, 2 * li) =~= bytes@.subrange(i as int + li, i as int + 2 * li));
        }
        Vector2 { x, y }
    }
}

/// A 3-component vector.
#[derive(Clone, Copy, Debug, PartialEq, Eq)]
pub struct Vector3<T> {
    pub x: T,
    pub y: T,
    pub z: T,
}

impl<T: PrimitiveDataType> DataType for Vector3<T> {
    open spec fn base_kind_spec() -> BaseKind {
        T::base_kind_spec()
    }

    open spec fn size_spec() -> u32 {
        3
    }

    open spec fn rank_spec() -> UniformType {
        UniformType::Vec3
    }

    open spec fn wide_kind_spec() -> WideKind {
        T::wide_kind_spec()
    }

    open spec fn wide_flat_spec(self) -> Seq<Wide> {
        seq![self.x.promote_spec(), self.y.promote_spec(), self.z.promote_spec()]
    }

    open spec fn bytes_spec(self) -> Seq<u8> {
        self.x.bytes_spec() + self.y.bytes_spec() + self.z.bytes_spec()
    }

    open spec fn byte_len_spec() -> nat {
        3 * T::byte_len_spec()
    }

    open spec fn decode_spec(b: Seq<u8>) -> Vector3<T> {
        let l = T::byte_len_spec() as int;
        Vector3 {
            x: T::decode_spec(b.subrange(0, l)),
            y: T::decode_spec(b.subrange(l, 2 * l)),
            z: T::decode_spec(b.subrange(2 * l, 3 * l)),
        }
    }

    proof fn lemma_byte_len_pos() {
        T::lemma_scalar_width();
    }

    proof fn lemma_wf(self) {
        let l = T::byte_len_spec() as int;
        self.x.lemma_wf();
        self.y.lemma_wf();
        self.z.lemma_wf();
        let b = self.bytes_spec();
        assert(b.subrange(0, l) =~= self.x.bytes_spec());
        assert(b.subrange(l, 2 * l) =~= self.y.bytes_spec());
        assert(b.subrange(2 * l, 3 * l) =~= self.z.bytes_spec());
    }

    fn internal_format() -> u32 {
        T::internal_format_with_size(3)
    }

    fn data_type() -> u32 {
        T::data_type()
    }

    fn size() -> u32 {
        3
    }

    fn send_uniform(data: &Vec<Vector3<T>>) -> (r: Result<UniformTransfer, CoreError>) {
        let ghost el = |v: Vector3<T>| seq![v.x, v.y, v.z];
        let mut flat: Vec<T> = Vec::new();
        proof {
            assert(data@.take(0).map_values(el) =~= Seq::<Seq<T>>::empty());
            assert(flat@ =~= data@.take(0).flat_map(el));
        }
        let mut i: usize = 0;
        while i < data.len()
            invariant
                i <= data.len(),
                flat@ == data@.take(i as int).flat_map(el),
                el == (|v: Vector3<T>| seq![v.x, v.y, v.z]),
            decreases data.len() - i,
        {
            let v = data[i];
            flat.push(v.x);
            flat.push(v.y);
            flat.push(v.z);
            proof {
                data@.lemma_flat_map_take_append(el, i as int);
                assert(flat@ =~= data@.take(i as int).flat_map(el) + el(data@[i as int]));
            }
            i += 1;
        }
        proof {
            assert(data@.take(data.len() as int) =~= data@);
        }
        let r = T::send_uniform_with_type(&flat, UniformType::Vec3);
        proof {
            let pm = |v: T| v.promote_spec();
            let wf = |v: Vector3<T>| v.wide_flat_spec();
            assert forall|j: int| 0 <= j < data@.len() implies wf(data@[j]) == el(
                data@[j],
            ).map_values(pm) by {
                assert(el(data@[j]).map_values(pm) =~= data@[j].wide_flat_spec());
            }
            lemma_map_of_flat_map(data@, el, pm, wf);
        }
        r
    }

    fn byte_len() -> usize {
        proof {
            T::lemma_scalar_width();
        }
        3 * T::byte_len()
    }

    fn append_bytes(&self, out: &mut Vec<u8>) {
        self.x.append_bytes(out);
        self.y.append_bytes(out);
        self.z.append_bytes(out);
        proof {
            assert(out@ =~= old(out)@ + self.bytes_spec());
        }
    }

    fn decode_at(bytes: &[u8], i: usize) -> (r: Vector3<T>) {
        proof {
            T::lemma_scalar_width();
        }
        // The call binds the slice length, whose usize bound the offset
        // arithmetic below needs.
        let n = bytes.len();
        let l = T::byte_len();
        let x = T::decode_at(bytes, i);
        let y = T::decode_at(bytes, i + l);
        let z = T::decode_at(bytes, i + 2 * l);
        proof {
            let li = T::byte_len_spec() as int;
            let sub = bytes@.subrange(i as int, i + Self::byte_len_spec());
            assert(sub.subrange(0, li) =~= bytes@.subrange(i as int, i as int + li));
            assert(sub.subrange(li, 2 * li) =~= bytes@.subrange(i as int + li, i as int + 2 * li));
            assert(sub.subrange(2 * li, 3 * li) =~= bytes@.subrange(
                i as int + 2 * li,
                i as int + 3 * li,
            ));
        }
        Vector3 { x, y, z }
    }
}

/// A 4-component vector.
#[derive(Clone, Copy, Debug, PartialEq, Eq)]
pub struct Vector4<T> {
    pub x: T,
    pub y: T,
    pub z: T,
    pub w: T,
}

impl<T: PrimitiveDataType> DataType for Vector4<T> {
    open spec fn base_kind_spec() -> BaseKind {
        T::base_kind_spec()
    }

    open spec fn size_spec() -> u32 {
        4
    }

    open spec fn rank_spec() -> UniformType {
        UniformType::Vec4
    }

    open spec fn wide_kind_spec() -> WideKind {
        T::wide_kind_spec()
    }

    open spec fn wide_flat_spec(self) -> Seq<Wide> {
        seq![
            self.x.promote_spec(),
            self.y.promote_spec(),
            self.z.promote_spec(),
            self.w.promote_spec(),
        ]
    }

    open spec fn bytes_spec(self) -> Seq<u8> {
        self.x.bytes_spec() + self.y.bytes_spec() + self.z.bytes_spec() + self.w.bytes_spec()
    }

    open spec fn byte_len_spec() -> nat {
        4 * T::byte_len_spec()
    }

    open spec fn decode_spec(b: Seq<u8>) -> Vector4<T> {
        let l = T::byte_len_spec() as int;
        Vector4 {
            x: T::decode_spec(b.subrange(0, l)),
            y: T::decode_spec(b.subrange(l, 2 * l)),
            z: T::decode_spec(b.subrange(2 * l, 3 * l)),
            w: T::decode_spec(b.subrange(3 * l, 4 * l)),
        }
    }

    proof fn lemma_byte_len_pos() {
        T::lemma_scalar_width();
    }

    proof fn lemma_wf(self) {
        let l = T::byte_len_spec() as int;
        self.x.lemma_wf();
        self.y.lemma_wf();
        self.z.lemma_wf();
        self.w.lemma_wf();
        let b = self.bytes_spec();
        assert(b.subrange(0, l) =~= self.x.bytes_spec());
        assert(b.subrange(l, 2 * l) =~= self.y.bytes_spec());
        assert(b.subrange(2 * l, 3 * l) =~= self.z.bytes_spec());
        assert(b.subrange(3 * l, 4 * l) =~= self.w.bytes_spec());
    }

    fn internal_format() -> u32 {
        T::internal_format_with_size(4)
    }

    fn data_type() -> u32 {
        T::data_type()
    }

    fn size() -> u32 {
        4
    }

    fn send_uniform(data: &Vec<Vector4<T>>) -> (r: Result<UniformTransfer, CoreError>) {
        let ghost el = |v: Vector4<T>| seq![v.x, v.y, v.z, v.w];
        let mut flat: Vec<T> = Vec::new();
        proof {
            assert(data@.take(0).map_values(el) =~= Seq::<Seq<T>>::empty());
            assert(flat@ =~= data@.take(0).flat_map(el));
        }
        let mut i: usize = 0;
        while i < data.len()
            invariant
                i <= data.len(),
                flat@ == data@.take(i as int).flat_map(el),
                el == (|v: Vector4<T>| seq![v.x, v.y, v.z, v.w]),
            decreases data.len() - i,
        {
            let v = data[i];
            flat.push(v.x);
            flat.push(v.y);
            flat.push(v.z);
            flat.push(v.w);
            proof {
                data@.lemma_flat_map_take_append(el, i as int);
                assert(flat@ =~= data@.take(i as int).flat_map(el) + el(data@[i as int]));
            }
            i += 1;
        }
        proof {
            assert(data@.take(data.len() as int) =~= data@);
        }
        let r = T::send_uniform_with_type(&flat, UniformType::Vec4);
        proof {
            let pm = |v: T| v.promote_spec();
            let wf = |v: Vector4<T>| v.wide_flat_spec();
            assert forall|j: int| 0 <= j < data@.len() implies wf(data@[j]) == el(
                data@[j],
            ).map_values(pm) by {
                assert(el(data@[j]).map_values(pm) =~= data@[j].wide_flat_spec());
            }
            lemma_map_of_flat_map(data@, el, pm, wf);
        }
        r
    }

    fn byte_len() -> usize {
        proof {
            T::lemma_scalar_width();
        }
        4 * T::byte_len()
    }

    fn append_bytes(&self, out: &mut Vec<u8>) {
        self.x.append_bytes(out);
        self.y.append_bytes(out);
        self.z.append_bytes(out);
        self.w.append_bytes(out);
        proof {
            assert(out@ =~= old(out)@ + self.bytes_spec());
        }
    }

    fn decode_at(bytes: &[u8], i: usize) -> (r: Vector4<T>) {
        proof {
            T::lemma_scalar_width();
        }
        // The call binds the slice length, whose usize bound the offset
        // arithmetic below needs.
        let n = bytes.len();
        let l = T::byte_len();
        let x = T::decode_at(bytes, i);
        let y = T::decode_at(bytes, i + l);
        let z = T::decode_at(bytes, i + 2 * l);
        let w = T::decode_at(bytes, i + 3 * l);
        proof {
            let li = T::byte_len_spec() as int;
            let sub = bytes@.subrange(i as int, i + Self::byte_len_spec());
            assert(sub.subrange(0, li) =~= bytes@.subrange(i as int, i as int + li));
            assert(sub.subrange(li, 2 * li) =~= bytes@.subrange(i as int + li, i as int + 2 * li));
            assert(sub.subrange(2 * li, 3 * li) =~= bytes@.subrange(
                i as int + 2 * li,
                i as int + 3 * li,
            ));
            assert(sub.subrange(3 * li, 4 * li) =~= bytes@.subrange(
                i as int + 3 * li,
                i as int + 4 * li,
            ));
        }
        Vector4 { x, y, z, w }
    }
}

/// A quaternion: a 3-component vector part and a scalar (real) part.  It
/// transfers as a 4-component vector with the scalar part placed last.
#[derive(Clone, Copy, Debug, PartialEq, Eq)]
pub struct Quaternion<T> {
    pub v: Vector3<T>,
    pub s: T,
}

impl<T: PrimitiveDataType> DataType for Quaternion<T> {
    open spec fn base_kind_spec() -> BaseKind {
        T::base_kind_spec()
    }

    open spec fn size_spec() -> u32 {
        4
    }

    open spec fn rank_spec() -> UniformType {
        UniformType::Vec4
    }

    open spec fn wide_kind_spec() -> WideKind {
        T::wide_kind_spec()
    }

    open spec fn wide_flat_spec(self) -> Seq<Wide> {
        seq![
            self.v.x.promote_spec(),
            self.v.y.promote_spec(),
            self.v.z.promote_spec(),
            self.s.promote_spec(),
        ]
    }

    open spec fn bytes_spec(self) -> Seq<u8> {
        self.v.bytes_spec() + self.s.bytes_spec()
    }

    open spec fn byte_len_spec() -> nat {
        4 * T::byte_len_spec()
    }

    open spec fn decode_spec(b: Seq<u8>) -> Quaternion<T> {
        let l = T::byte_len_spec() as int;
        Quaternion {
            v: <Vector3<T> as DataType>::decode_spec(b.subrange(0, 3 * l)),
            s: T::decode_spec(b.subrange(3 * l, 4 * l)),
        }
    }

    proof fn lemma_byte_len_pos() {
        T::lemma_scalar_width();
    }

    proof fn lemma_wf(self) {
        let l = T::byte_len_spec() as int;
        self.v.lemma_wf();
        self.s.lemma_wf();
        let b = self.bytes_spec();
        assert(b.subrange(0, 3 * l) =~= self.v.bytes_spec());
        assert(b.subrange(3 * l, 4 * l) =~= self.s.bytes_spec());
    }

    fn internal_format() -> u32 {
        T::internal_format_with_size(4)
    }

    fn data_type() -> u32 {
        T::data_type()
    }

    fn size() -> u32 {
        4
    }

    fn send_uniform(data: &Vec<Quaternion<T>>) -> (r: Result<UniformTransfer, CoreError>) {
        let ghost el = |q: Quaternion<T>| seq![q.v.x, q.v.y, q.v.z, q.s];
        let mut flat: Vec<T> = Vec::new();
        proof {
            assert(data@.take(0).map_values(el) =~= Seq::<Seq<T>>::empty());
            assert(flat@ =~= data@.take(0).flat_map(el));
        }
        let mut i: usize = 0;
        while i < data.len()
            invariant
                i <= data.len(),
                flat@ == data@.take(i as int).flat_map(el),
                el == (|q: Quaternion<T>| seq![q.v.x, q.v.y, q.v.z, q.s]),
            decreases data.len() - i,
        {
            let q = data[i];
            flat.push(q.v.x);
            flat.push(q.v.y);
            flat.push(q.v.z);
            flat.push(q.s);
            proof {
                data@.lemma_flat_map_take_append(el, i as int);
                assert(flat@ =~= data@.take(i as int).flat_map(el) + el(data@[i as int]));
            }
            i += 1;
        }
        proof {
            assert(data@.take(data.len() as int) =~= data@);
        }
        let r = T::send_uniform_with_type(&flat, UniformType::Vec4);
        proof {
            let pm = |v: T| v.promote_spec();
            let wf = |q: Quaternion<T>| q.wide_flat_spec();
            assert forall|j: int| 0 <= j < data@.len() implies wf(data@[j]) == el(
                data@[j],
            ).map_values(pm) by {
                assert(el(data@[j]).map_values(pm) =~= data@[j].wide_flat_spec());
            }
            lemma_map_of_flat_map(data@, el, pm, wf);
        }
        r
    }

    fn byte_len() -> usize {
        proof {
            T::lemma_scalar_width();
        }
        4 * T::byte_len()
    }

    fn append_bytes(&self, out: &mut Vec<u8>) {
        self.v.append_bytes(out);
        self.s.append_bytes(out);
        proof {
            assert(out@ =~= old(out)@ + self.bytes_spec());
        }
    }

    fn decode_at(bytes: &[u8], i: usize) -> (r: Quaternion<T>) {
        proof {
            T::lemma_scalar_width();
        }
        // The call binds the slice length, whose usize bound the offset
        // arithmetic below needs.
        let n = bytes.len();
        let l = T::byte_len();
        let v = <Vector3<T> as DataType>::decode_at(bytes, i);
        let s = T::decode_at(bytes, i + 3 * l);
        proof {
            let li = T::byte_len_spec() as int;
            let sub = bytes@.subrange(i as int, i + Self::byte_len_spec());
            assert(sub.subrange(0, 3 * li) =~= bytes@.subrange(i as int, i as int + 3 * li));
            assert(sub.subrange(3 * li, 4 * li) =~= bytes@.subrange(
                i as int + 3 * li,
                i as int + 4 * li,
            ));
        }
        Quaternion { v, s }
    }
}

/// A packed color: four 8-bit channels, red, green, blue, alpha.  It is
/// stored as bytes but always transfers as a 4-component vector of floats,
/// each channel normalized to the 32-bit float nearest to `channel / 255`.
#[derive(Clone, Copy, Debug, PartialEq, Eq, Structural)]
pub struct Color {
    pub r: u8,
    pub g: u8,
    pub b: u8,
    pub a: u8,
}

impl DataType for Color {
    open spec fn base_kind_spec() -> BaseKind {
        BaseKind::UInt8
    }

    open spec fn size_spec() -> u32 {
        4
    }

    open spec fn rank_spec() -> UniformType {
        UniformType::Vec4
    }

    open spec fn wide_kind_spec() -> WideKind {
        WideKind::Float
    }

    open spec fn wide_flat_spec(self) -> Seq<Wide> {
        seq![
            Wide::Float(spec_norm_bits(self.r)),
            Wide::Float(spec_norm_bits(self.g)),
            Wide::Float(spec_norm_bits(self.b)),
            Wide::Float(spec_norm_bits(self.a)),
        ]
    }

    open spec fn bytes_spec(self) -> Seq<u8> {
        seq![self.r, self.g, self.b, self.a]
    }

    open spec fn byte_len_spec() -> nat {
        4
    }

    open spec fn decode_spec(bs: Seq<u8>) -> Color {
        Color { r: bs[0], g: bs[1], b: bs[2], a: bs[3] }
    }

    proof fn lemma_byte_len_pos() {
    }

    proof fn lemma_wf(self) {
    }

    fn internal_format() -> u32 {
        <u8 as PrimitiveDataType>::internal_format_with_size(4)
    }

    fn data_type() -> u32 {
        BaseKind::UInt8.data_type()
    }

    fn size() -> u32 {
        4
    }

    fn send_uniform(data: &Vec<Color>) -> (r: Result<UniformTransfer, CoreError>) {
        let ghost el = |c: Color| seq![
            F32 { bits: spec_norm_bits(c.r) },
            F32 { bits: spec_norm_bits(c.g) },
            F32 { bits: spec_norm_bits(c.b) },
            F32 { bits: spec_norm_bits(c.a) },
        ];
        let mut flat: Vec<F32> = Vec::new();
        proof {
            assert(data@.take(0).map_values(el) =~= Seq::<Seq<F32>>::empty());
            assert(flat@ =~= data@.take(0).flat_map(el));
        }
        let mut i: usize = 0;
        while i < data.len()
            invariant
                i <= data.len(),
                flat@ == data@.take(i as int).flat_map(el),
                el == (|c: Color| seq![
                    F32 { bits: spec_norm_bits(c.r) },
                    F32 { bits: spec_norm_bits(c.g) },
                    F32 { bits: spec_norm_bits(c.b) },
                    F32 { bits: spec_norm_bits(c.a) },
                ]),
            decreases data.len() - i,
        {
            let c = data[i];
            flat.push(F32 { bits: norm_channel_bits(c.r) });
            flat.push(F32 { bits: norm_channel_bits(c.g) });
            flat.push(F32 { bits: norm_channel_bits(c.b) });
            flat.push(F32 { bits: norm_channel_bits(c.a) });
            proof {
                data@.lemma_flat_map_take_append(el, i as int);
                assert(flat@ =~= data@.take(i as int).flat_map(el) + el(data@[i as int]));
            }
            i += 1;
        }
        proof {
            assert(data@.take(data.len() as int) =~= data@);
        }
        let r = <F32 as PrimitiveDataType>::send_uniform_with_type(&flat, UniformType::Vec4);
        proof {
            let pm = |v: F32| v.promote_spec();
            let wf = |c: Color| c.wide_flat_spec();
            assert forall|j: int| 0 <= j < data@.len() implies wf(data@[j]) == el(
                data@[j],
            ).map_values(pm) by {
                assert(el(data@[j]).map_values(pm) =~= data@[j].wide_flat_spec());
            }
            lemma_map_of_flat_map(data@, el, pm, wf);
        }
        r
    }

    fn byte_len() -> usize {
        4
    }

    fn append_bytes(&self, out: &mut Vec<u8>) {
        out.push(self.r);
        out.push(self.g);
        out.push(self.b);
        out.push(self.a);
        proof {
            assert(out@ =~= old(out)@ + self.bytes_spec());
        }
    }

    fn decode_at(bytes: &[u8], i: usize) -> (c: Color) {
        let r = bytes[i];
        let g = bytes[i + 1];
        let b = bytes[i + 2];
        let a = bytes[i + 3];
        proof {
            let sub = bytes@.subrange(i as int, i as int + 4);
            assert(sub[0] == r && sub[1] == g && sub[2] == b && sub[3] == a);
        }
        Color { r, g, b, a }
    }
}

/// A 2x2 matrix, stored as two column vectors.  It flattens column-major:
/// the columns concatenated, each in component order.  Its storage format
/// is chosen as a 4-component type.
#[derive(Clone, Copy, Debug, PartialEq, Eq)]
pub struct Matrix2<T> {
    pub x: Vector2<T>,
    pub y: Vector2<T>,
}

impl<T: PrimitiveDataType> DataType for Matrix2<T> {
    open spec fn base_kind_spec() -> BaseKind {
        T::base_kind_spec()
    }

    open spec fn size_spec() -> u32 {
        4
    }

    open spec fn rank_spec() -> UniformType {
        UniformType::Mat2
    }

    open spec fn wide_kind_spec() -> WideKind {
        T::wide_kind_spec()
    }

    open spec fn wide_flat_spec(self) -> Seq<Wide> {
        seq![
            self.x.x.promote_spec(),
            self.x.y.promote_spec(),
            self.y.x.promote_spec(),
            self.y.y.promote_spec(),
        ]
    }

    open spec fn bytes_spec(self) -> Seq<u8> {
        self.x.bytes_spec() + self.y.bytes_spec()
    }

    open spec fn byte_len_spec() -> nat {
        4 * T::byte_len_spec()
    }

    open spec fn decode_spec(b: Seq<u8>) -> Matrix2<T> {
        let l = T::byte_len_spec() as int;
        Matrix2 {
            x: <Vector2<T> as DataType>::decode_spec(b.subrange(0, 2 * l)),
            y: <Vector2<T> as DataType>::decode_spec(b.subrange(2 * l, 4 * l)),
        }
    }

    proof fn lemma_byte_len_pos() {
        T::lemma_scalar_width();
    }

    proof fn lemma_wf(self) {
        let l = T::byte_len_spec() as int;
        self.x.lemma_wf();
        self.y.lemma_wf();
        let b = self.bytes_spec();
        assert(b.subrange(0, 2 * l) =~= self.x.bytes_spec());
        assert(b.subrange(2 * l, 4 * l) =~= self.y.bytes_spec());
    }

    fn internal_format() -> u32 {
        T::internal_format_with_size(4)
    }

    fn data_type() -> u32 {
        T::data_type()
    }

    fn size() -> u32 {
        4
    }

    fn send_uniform(data: &Vec<Matrix2<T>>) -> (r: Result<UniformTransfer, CoreError>) {
        let ghost el = |m: Matrix2<T>| seq![m.x.x, m.x.y, m.y.x, m.y.y];
        let mut flat: Vec<T> = Vec::new();
        proof {
            assert(data@.take(0).map_values(el) =~= Seq::<Seq<T>>::empty());
            assert(flat@ =~= data@.take(0).flat_map(el));
        }
        let mut i: usize = 0;
        while i < data.len()
            invariant
                i <= data.len(),
                flat@ == data@.take(i as int).flat_map(el),
                el == (|m: Matrix2<T>| seq![m.x.x, m.x.y, m.y.x, m.y.y]),
            decreases data.len() - i,
        {
            let m = data[i];
            flat.push(m.x.x);
            flat.push(m.x.y);
            flat.push(m.y.x);
            flat.push(m.y.y);
            proof {
                data@.lemma_flat_map_take_append(el, i as int);
                assert(flat@ =~= data@.take(i as int).flat_map(el) + el(data@[i as int]));
            }
            i += 1;
        }
        proof {
            assert(data@.take(data.len() as int) =~= data@);
        }
        let r = T::send_uniform_with_type(&flat, UniformType::Mat2);
        proof {
            let pm = |v: T| v.promote_spec();
            let wf = |m: Matrix2<T>| m.wide_flat_spec();
            assert forall|j: int| 0 <= j < data@.len() implies wf(data@[j]) == el(
                data@[j],
            ).map_values(pm) by {
                assert(el(data@[j]).map_values(pm) =~= data@[j].wide_flat_spec());
            }
            lemma_map_of_flat_map(data@, el, pm, wf);
        }
        r
    }

    fn byte_len() -> usize {
        proof {
            T::lemma_scalar_width();
        }
        4 * T::byte_len()
    }

    fn append_bytes(&self, out: &mut Vec<u8>) {
        self.x.append_bytes(out);
        self.y.append_bytes(out);
        proof {
            assert(out@ =~= old(out)@ + self.bytes_spec());
        }
    }

    fn decode_at(bytes: &[u8], i: usize) -> (r: Matrix2<T>) {
        proof {
            T::lemma_scalar_width();
        }
        // The call binds the slice length, whose usize bound the offset
        // arithmetic below needs.
        let n = bytes.len();
        let l = T::byte_len();
        let x = <Vector2<T> as DataType>::decode_at(bytes, i);
        let y = <Vector2<T> as DataType>::decode_at(bytes, i + 2 * l);
        proof {
            let li = T::byte_len_spec() as int;
            let sub = bytes@.subrange(i as int, i + Self::byte_len_spec());
            assert(sub.subrange(0, 2 * li) =~= bytes@.subrange(i as int, i as int + 2 * li));
            assert(sub.subrange(2 * li, 4 * li) =~= bytes@.subrange(
                i as int + 2 * li,
                i as int + 4 * li,
            ));
        }
        Matrix2 { x, y }
    }
}

/// A 3x3 matrix, stored as three column vectors.  It flattens
/// column-major into nine scalars; it has no storage format of its own
/// (its element count is outside the 1 to 4 component range).
#[derive(Clone, Copy, Debug, PartialEq, Eq)]
pub struct Matrix3<T> {
    pub x: Vector3<T>,
    pub y: Vector3<T>,
    pub z: Vector3<T>,
}

impl<T: PrimitiveDataType> DataType for Matrix3<T> {
    open spec fn base_kind_spec() -> BaseKind {
        T::base_kind_spec()
    }

    open spec fn size_spec() -> u32 {
        9
    }

    open spec fn rank_spec() -> UniformType {
        UniformType::Mat3
    }

    open spec fn wide_kind_spec() -> WideKind {
        T::wide_kind_spec()
    }

    open spec fn wide_flat_spec(self) -> Seq<Wide> {
        seq![
            self.x.x.promote_spec(),
            self.x.y.promote_spec(),
            self.x.z.promote_spec(),
            self.y.x.promote_spec(),
            self.y.y.promote_spec(),
            self.y.z.promote_spec(),
            self.z.x.promote_spec(),
            self.z.y.promote_spec(),
            self.z.z.promote_spec(),
        ]
    }

    open spec fn bytes_spec(self) -> Seq<u8> {
        self.x.bytes_spec() + self.y.bytes_spec() + self.z.bytes_spec()
    }

    open spec fn byte_len_spec() -> nat {
        9 * T::byte_len_spec()
    }

    open spec fn decode_spec(b: Seq<u8>) -> Matrix3<T> {
        let l = T::byte_len_spec() as int;
        Matrix3 {
            x: <Vector3<T> as DataType>::decode_spec(b.subrange(0, 3 * l)),
            y: <Vector3<T> as DataType>::decode_spec(b.subrange(3 * l, 6 * l)),
            z: <Vector3<T> as DataType>::decode_spec(b.subrange(6 * l, 9 * l)),
        }
    }

    proof fn lemma_byte_len_pos() {
        T::lemma_scalar_width();
    }

    proof fn lemma_wf(self) {
        let l = T::byte_len_spec() as int;
        self.x.lemma_wf();
        self.y.lemma_wf();
        self.z.lemma_wf();
        let b = self.bytes_spec();
        assert(b.subrange(0, 3 * l) =~= self.x.bytes_spec());
        assert(b.subrange(3 * l, 6 * l) =~= self.y.bytes_spec());
        assert(b.subrange(6 * l, 9 * l) =~= self.z.bytes_spec());
    }

    fn internal_format() -> u32 {
        T::internal_format_with_size(9)
    }

    fn data_type() -> u32 {
        T::data_type()
    }

    fn size() -> u32 {
        9
    }

    fn send_uniform(data: &Vec<Matrix3<T>>) -> (r: Result<UniformTransfer, CoreError>) {
        let ghost el = |m: Matrix3<T>| seq![
            m.x.x,
            m.x.y,
            m.x.z,
            m.y.x,
            m.y.y,
            m.y.z,
            m.z.x,
            m.z.y,
            m.z.z,
        ];
        let mut flat: Vec<T> = Vec::new();
        proof {
            assert(data@.take(0).map_values(el) =~= Seq::<Seq<T>>::empty());
            assert(flat@ =~= data@.take(0).flat_map(el));
        }
        let mut i: usize = 0;
        while i < data.len()
            invariant
                i <= data.len(),
                flat@ == data@.take(i as int).flat_map(el),
                el == (|m: Matrix3<T>| seq![
                    m.x.x,
                    m.x.y,
                    m.x.z,
                    m.y.x,
                    m.y.y,
                    m.y.z,
                    m.z.x,
                    m.z.y,
                    m.z.z,
                ]),
            decreases data.len() - i,
        {
            let m = data[i];
            flat.push(m.x.x);
            flat.push(m.x.y);
            flat.push(m.x.z);
            flat.push(m.y.x);
            flat.push(m.y.y);
            flat.push(m.y.z);
            flat.push(m.z.x);
            flat.push(m.z.y);
            flat.push(m.z.z);
            proof {
                data@.lemma_flat_map_take_append(el, i as int);
                assert(flat@ =~= data@.take(i as int).flat_map(el) + el(data@[i as int]));
            }
            i += 1;
        }
        proof {
            assert(data@.take(data.len() as int) =~= data@);
        }
        let r = T::send_uniform_with_type(&flat, UniformType::Mat3);
        proof {
            let pm = |v: T| v.promote_spec();
            let wf = |m: Matrix3<T>| m.wide_flat_spec();
            assert forall|j: int| 0 <= j < data@.len() implies wf(data@[j]) == el(
                data@[j],
            ).map_values(pm) by {
                assert(el(data@[j]).map_values(pm) =~= data@[j].wide_flat_spec());
            }
            lemma_map_of_flat_map(data@, el, pm, wf);
        }
        r
    }

    fn byte_len() -> usize {
        proof {
            T::lemma_scalar_width();
        }
        9 * T::byte_len()
    }

    fn append_bytes(&self, out: &mut Vec<u8>) {
        self.x.append_bytes(out);
        self.y.append_bytes(out);
        self.z.append_bytes(out);
        proof {
            assert(out@ =~= old(out)@ + self.bytes_spec());
        }
    }

    fn decode_at(bytes: &[u8], i: usize) -> (r: Matrix3<T>) {
        proof {
            T::lemma_scalar_width();
        }
        // The call binds the slice length, whose usize bound the offset
        // arithmetic below needs.
        let n = bytes.len();
        let l = T::byte_len();
        let x = <Vector3<T> as DataType>::decode_at(bytes, i);
        let y = <Vector3<T> as DataType>::decode_at(bytes, i + 3 * l);
        let z = <Vector3<T> as DataType>::decode_at(bytes, i + 6 * l);
        proof {
            let li = T::byte_len_spec() as int;
            let sub = bytes@.subrange(i as int, i + Self::byte_len_spec());
            assert(sub.subrange(0, 3 * li) =~= bytes@.subrange(i as int, i as int + 3 * li));
            assert(sub.subrange(3 * li, 6 * li) =~= bytes@.subrange(
                i as int + 3 * li,
                i as int + 6 * li,
            ));
            assert(sub.subrange(6 * li, 9 * li) =~= bytes@.subrange(
                i as int + 6 * li,
                i as int + 9 * li,
            ));
        }
        Matrix3 { x, y, z }
    }
}

/// A 4x4 matrix, stored as four column vectors.  It flattens column-major
/// into sixteen scalars; it has no storage format of its own (its element
/// count is outside the 1 to 4 component range).
#[derive(Clone, Copy, Debug, PartialEq, Eq)]
pub struct Matrix4<T> {
    pub x: Vector4<T>,
    pub y: Vector4<T>,
    pub z: Vector4<T>,
    pub w: Vector4<T>,
}

impl<T: PrimitiveDataType> DataType for Matrix4<T> {
    open spec fn base_kind_spec() -> BaseKind {
        T::base_kind_spec()
    }

    open spec fn size_spec() -> u32 {
        16
    }

    open spec fn rank_spec() -> UniformType {
        UniformType::Mat4
    }

    open spec fn wide_kind_spec() -> WideKind {
        T::wide_kind_spec()
    }

    open spec fn wide_flat_spec(self) -> Seq<Wide> {
        seq![
            self.x.x.promote_spec(),
            self.x.y.promote_spec(),
            self.x.z.promote_spec(),
            self.x.w.promote_spec(),
            self.y.x.promote_spec(),
            self.y.y.promote_spec(),
            self.y.z.promote_spec(),
            self.y.w.promote_spec(),
            self.z.x.promote_spec(),
            self.z.y.promote_spec(),
            self.z.z.promote_spec(),
            self.z.w.promote_spec(),
            self.w.x.promote_spec(),
            self.w.y.promote_spec(),
            self.w.z.promote_spec(),
            self.w.w.promote_spec(),
        ]
    }

    open spec fn bytes_spec(self) -> Seq<u8> {
        self.x.bytes_spec() + self.y.bytes_spec() + self.z.bytes_spec() + self.w.bytes_spec()
    }

    open spec fn byte_len_spec() -> nat {
        16 * T::byte_len_spec()
    }

    open spec fn decode_spec(b: Seq<u8>) -> Matrix4<T> {
        let l = T::byte_len_spec() as int;
        Matrix4 {
            x: <Vector4<T> as DataType>::decode_spec(b.subrange(0, 4 * l)),
            y: <Vector4<T> as DataType>::decode_spec(b.subrange(4 * l, 8 * l)),
            z: <Vector4<T> as DataType>::decode_spec(b.subrange(8 * l, 12 * l)),
            w: <Vector4<T> as DataType>::decode_spec(b.subrange(12 * l, 16 * l)),
        }
    }

    proof fn lemma_byte_len_pos() {
        T::lemma_scalar_width();
    }

    proof fn lemma_wf(self) {
        let l = T::byte_len_spec() as int;
        self.x.lemma_wf();
        self.y.lemma_wf();
        self.z.lemma_wf();
        self.w.lemma_wf();
        let b = self.bytes_spec();
        assert(b.subrange(0, 4 * l) =~= self.x.bytes_spec());
        assert(b.subrange(4 * l, 8 * l) =~= self.y.bytes_spec());
        assert(b.subrange(8 * l, 12 * l) =~= self.z.bytes_spec());
        assert(b.subrange(12 * l, 16 * l) =~= self.w.bytes_spec());
    }

    fn internal_format() -> u32 {
        T::internal_format_with_size(16)
    }

    fn data_type() -> u32 {
        T::data_type()
    }

    fn size() -> u32 {
        16
    }

    fn send_uniform(data: &Vec<Matrix4<T>>) -> (r: Result<UniformTransfer, CoreError>) {
        let ghost el = |m: Matrix4<T>| seq![
            m.x.x,
            m.x.y,
            m.x.z,
            m.x.w,
            m.y.x,
            m.y.y,
            m.y.z,
            m.y.w,
            m.z.x,
            m.z.y,
            m.z.z,
            m.z.w,
            m.w.x,
            m.w.y,
            m.w.z,
            m.w.w,
        ];
        let mut flat: Vec<T> = Vec::new();
        proof {
            assert(data@.take(0).map_values(el) =~= Seq::<Seq<T>>::empty());
            assert(flat@ =~= data@.take(0).flat_map(el));
        }
        let mut i: usize = 0;
        while i < data.len()
            invariant
                i <= data.len(),
                flat@ == data@.take(i as int).flat_map(el),
                el == (|m: Matrix4<T>| seq![
                    m.x.x,
                    m.x.y,
                    m.x.z,
                    m.x.w,
                    m.y.x,
                    m.y.y,
                    m.y.z,
                    m.y.w,
                    m.z.x,
                    m.z.y,
                    m.z.z,
                    m.z.w,
                    m.w.x,
                    m.w.y,
                    m.w.z,
                    m.w.w,
                ]),
            decreases data.len() - i,
        {
            let m = data[i];
            flat.push(m.x.x);
            flat.push(m.x.y);
            flat.push(m.x.z);
            flat.push(m.x.w);
            flat.push(m.y.x);
            flat.push(m.y.y);
            flat.push(m.y.z);
            flat.push(m.y.w);
            flat.push(m.z.x);
            flat.push(m.z.y);
            flat.push(m.z.z);
            flat.push(m.z.w);
            flat.push(m.w.x);
            flat.push(m.w.y);
            flat.push(m.w.z);
            flat.push(m.w.w);
            proof {
                data@.lemma_flat_map_take_append(el, i as int);
                assert(flat@ =~= data@.take(i as int).flat_map(el) + el(data@[i as int]));
            }
            i += 1;
        }
        proof {
            assert(data@.take(data.len() as int) =~= data@);
        }
        let r = T::send_uniform_with_type(&flat, UniformType::Mat4);
        proof {
            let pm = |v: T| v.promote_spec();
            let wf = |m: Matrix4<T>| m.wide_flat_spec();
            assert forall|j: int| 0 <= j < data@.len() implies wf(data@[j]) == el(
                data@[j],
            ).map_values(pm) by {
                assert(el(data@[j]).map_values(pm) =~= data@[j].wide_flat_spec());
            }
            lemma_map_of_flat_map(data@, el, pm, wf);
        }
        r
    }

    fn byte_len() -> usize {
        proof {
            T::lemma_scalar_width();
        }
        16 * T::byte_len()
    }

    fn append_bytes(&self, out: &mut Vec<u8>) {
        self.x.append_bytes(out);
        self.y.append_bytes(out);
        self.z.append_bytes(out);
        self.w.append_bytes(out);
        proof {
            assert(out@ =~= old(out)@ + self.bytes_spec());
        }
    }

    fn decode_at(bytes: &[u8], i: usize) -> (r: Matrix4<T>) {
        proof {
            T::lemma_scalar_width();
        }
        // The call binds the slice length, whose usize bound the offset
        // arithmetic below needs.
        let n = bytes.len();
        let l = T::byte_len();
        let x = <Vector4<T> as DataType>::decode_at(bytes, i);
        let y = <Vector4<T> as DataType>::decode_at(bytes, i + 4 * l);
        let z = <Vector4<T> as DataType>::decode_at(bytes, i + 8 * l);
        let w = <Vector4<T> as DataType>::decode_at(bytes, i + 12 * l);
        proof {
            let li = T::byte_len_spec() as int;
            let sub = bytes@.subrange(i as int, i + Self::byte_len_spec());
            assert(sub.subrange(0, 4 * li) =~= bytes@.subrange(i as int, i as int + 4 * li));
            assert(sub.subrange(4 * li, 8 * li) =~= bytes@.subrange(
                i as int + 4 * li,
                i as int + 8 * li,
            ));
            assert(sub.subrange(8 * li, 12 * li) =~= bytes@.subrange(
                i as int + 8 * li,
                i as int + 12 * li,
            ));
            assert(sub.subrange(12 * li, 16 * li) =~= bytes@.subrange(
                i as int + 12 * li,
                i as int + 16 * li,
            ));
        }
        Matrix4 { x, y, z, w }
    }
}

} // verus!
