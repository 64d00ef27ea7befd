//! The scalar data types.
//!
//! Each of the eight base kinds is a [`DataType`] of rank `Value` and a
//! [`PrimitiveDataType`] usable as the element of composite shapes.  The
//! 32-bit kinds transfer as they are; the narrow kinds widen every scalar
//! on transfer.  The float kinds are carried as bit patterns in the
//! wrapper structs [`F16`] and [`F32`].

use crate::bits::{f16_widen_bits, spec_f16_bits};
use crate::codec::{
    i16_bits, i16_unbits, i32_bits, i32_unbits, i8_bits, i8_unbits, lemma_i16_bits_round_trip,
    lemma_i32_bits_round_trip, lemma_i8_bits_round_trip, lemma_u16_le_round_trip,
    lemma_u32_le_round_trip, spec_i16_bits, spec_i16_from, spec_i32_bits, spec_i32_from,
    spec_i8_bits, spec_i8_from, spec_u16_from, spec_u16_le, spec_u32_from, spec_u32_le,
    u16_le_append, u16_le_read, u32_le_append, u32_le_read,
};
use crate::data::{
    DataType, PrimitiveDataType, UniformTransfer, UniformType, Wide, WideData, WideKind,
};
use crate::error::CoreError;
use crate::flat::lemma_flat_map_singletons;
use crate::kind::BaseKind;
use vstd::prelude::*;

verus! {

impl DataType for u32 {
    open spec fn base_kind_spec() -> BaseKind {
        BaseKind::UInt32
    }

    open spec fn size_spec() -> u32 {
        1
    }

    open spec fn rank_spec() -> UniformType {
        UniformType::Value
    }

    open spec fn wide_kind_spec() -> WideKind {
        WideKind::UInt
    }

    open spec fn wide_flat_spec(self) -> Seq<Wide> {
        seq![Wide::UInt(self)]
    }

    open spec fn bytes_spec(self) -> Seq<u8> {
        spec_u32_le(self)
    }

    open spec fn byte_len_spec() -> nat {
        4
    }

    open spec fn decode_spec(b: Seq<u8>) -> u32 {
        spec_u32_from(b)
    }

    proof fn lemma_byte_len_pos() {
    }

    proof fn lemma_wf(self) {
        lemma_u32_le_round_trip(self);
    }

    fn internal_format() -> u32 {
        <u32 as PrimitiveDataType>::internal_format_with_size(1)
    }

    fn data_type() -> u32 {
        BaseKind::UInt32.data_type()
    }

    fn size() -> u32 {
        1
    }

    fn send_uniform(data: &Vec<u32>) -> (r: Result<UniformTransfer, CoreError>) {
        let r = <u32 as PrimitiveDataType>::send_uniform_with_type(data, UniformType::Value);
        proof {
            lemma_flat_map_singletons(
                data@,
                |v: u32| v.wide_flat_spec(),
                |v: u32| v.promote_spec(),
            );
        }
        r
    }

    fn byte_len() -> usize {
        4
    }

    fn append_bytes(&self, out: &mut Vec<u8>) {
        u32_le_append(*self, out);
    }

    fn decode_at(bytes: &[u8], i: usize) -> u32 {
        u32_le_read(bytes, i)
    }
}

impl PrimitiveDataType for u32 {
    open spec fn promote_spec(self) -> Wide {
        Wide::UInt(self)
    }

    proof fn lemma_scalar_width() {
    }

    fn internal_format_with_size(size: u32) -> u32 {
        BaseKind::UInt32.internal_format_with_size(size)
    }

    fn send_uniform_with_type(data: &Vec<u32>, type_: UniformType) -> (r: Result<
        UniformTransfer,
        CoreError,
    >) {
        match type_ {
            UniformType::Mat2 | UniformType::Mat3 | UniformType::Mat4 => Err(
                CoreError::UnsupportedUniformType,
            ),
            _ => {
                let mut out: Vec<u32> = Vec::new();
                let mut i: usize = 0;
                while i < data.len()
                    invariant
                        i <= data.len(),
                        out@ == data@.take(i as int),
                    decreases data.len() - i,
                {
                    out.push(data[i]);
                    proof {
                        assert(data@.take(i as int + 1) =~= data@.take(i as int).push(
                            data@[i as int],
                        ));
                    }
                    i += 1;
                }
                proof {
                    assert(data@.take(data.len() as int) =~= data@);
                }
                let d = WideData::UInt(out);
                proof {
                    assert(d.wides() =~= data@.map_values(|v: u32| v.promote_spec()));
                }
                Ok(UniformTransfer { rank: type_, data: d })
            },
        }
    }
}

/// A 32-bit float scalar, carried as its bit pattern.
#[derive(Clone, Copy, Debug, PartialEq, Eq, Structural)]
pub struct F32 {
    pub bits: u32,
}

/// A 16-bit float scalar, carried as its bit pattern.
#[derive(Clone, Copy, Debug, PartialEq, Eq, Structural)]
pub struct F16 {
    pub bits: u16,
}

impl DataType for F32 {
    open spec fn base_kind_spec() -> BaseKind {
        BaseKind::Float32
    }

    open spec fn size_spec() -> u32 {
        1
    }

    open spec fn rank_spec() -> UniformType {
        UniformType::Value
    }

    open spec fn wide_kind_spec() -> WideKind {
        WideKind::Float
    }

    open spec fn wide_flat_spec(self) -> Seq<Wide> {
        seq![Wide::Float(self.bits)]
    }

    open spec fn bytes_spec(self) -> Seq<u8> {
        spec_u32_le(self.bits)
    }

    open spec fn byte_len_spec() -> nat {
        4
    }

    open spec fn decode_spec(b: Seq<u8>) -> F32 {
        F32 { bits: spec_u32_from(b) }
    }

    proof fn lemma_byte_len_pos() {
    }

    proof fn lemma_wf(self) {
        lemma_u32_le_round_trip(self.bits);
    }

    fn internal_format() -> u32 {
        <F32 as PrimitiveDataType>::internal_format_with_size(1)
    }

    fn data_type() -> u32 {
        BaseKind::Float32.data_type()
    }

    fn size() -> u32 {
        1
    }

    fn send_uniform(data: &Vec<F32>) -> (r: Result<UniformTransfer, CoreError>) {
        let r = <F32 as PrimitiveDataType>::send_uniform_with_type(data, UniformType::Value);
        proof {
            lemma_flat_map_singletons(
                data@,
                |v: F32| v.wide_flat_spec(),
                |v: F32| v.promote_spec(),
            );
        }
        r
    }

    fn byte_len() -> usize {
        4
    }

    fn append_bytes(&self, out: &mut Vec<u8>) {
        u32_le_append(self.bits, out);
    }

    fn decode_at(bytes: &[u8], i: usize) -> F32 {
        F32 { bits: u32_le_read(bytes, i) }
    }
}

impl PrimitiveDataType for F32 {
    open spec fn promote_spec(self) -> Wide {
        Wide::Float(self.bits)
    }

    proof fn lemma_scalar_width() {
    }

    fn internal_format_with_size(size: u32) -> u32 {
        BaseKind::Float32.internal_format_with_size(size)
    }

    fn send_uniform_with_type(data: &Vec<F32>, type_: UniformType) -> (r: Result<
        UniformTransfer,
        CoreError,
    >) {
        let mut out: Vec<u32> = Vec::new();
        let mut i: usize = 0;
        while i < data.len()
            invariant
                i <= data.len(),
                out@ == data@.take(i as int).map_values(|v: F32| v.bits),
            decreases data.len() - i,
        {
            out.push(data[i].bits);
            proof {
                assert(data@.take(i as int + 1).map_values(|v: F32| v.bits) =~= data@.take(
                    i as int,
                ).map_values(|v: F32| v.bits).push(data@[i as int].bits));
            }
            i += 1;
        }
        proof {
            assert(data@.take(data.len() as int) =~= data@);
        }
        let d = WideData::Float(out);
        proof {
            assert(d.wides() =~= data@.map_values(|v: F32| v.promote_spec()));
        }
        Ok(UniformTransfer { rank: type_, data: d })
    }
}

impl DataType for i32 {
    open spec fn base_kind_spec() -> BaseKind {
        BaseKind::Int32
    }

    open spec fn size_spec() -> u32 {
        1
    }

    open spec fn rank_spec() -> UniformType {
        UniformType::Value
    }

    open spec fn wide_kind_spec() -> WideKind {
        WideKind::Int
    }

    open spec fn wide_flat_spec(self) -> Seq<Wide> {
        seq![Wide::Int(self)]
    }

    open spec fn bytes_spec(self) -> Seq<u8> {
        spec_u32_le(spec_i32_bits(self))
    }

    open spec fn byte_len_spec() -> nat {
        4
    }

    open spec fn decode_spec(b: Seq<u8>) -> i32 {
        spec_i32_from(spec_u32_from(b))
    }

    proof fn lemma_byte_len_pos() {
    }

    proof fn lemma_wf(self) {
        lemma_u32_le_round_trip(spec_i32_bits(self));
        lemma_i32_bits_round_trip(self);
    }

    fn internal_format() -> u32 {
        <i32 as PrimitiveDataType>::internal_format_with_size(1)
    }

    fn data_type() -> u32 {
        BaseKind::Int32.data_type()
    }

    fn size() -> u32 {
        1
    }

    fn send_uniform(data: &Vec<i32>) -> (r: Result<UniformTransfer, CoreError>) {
        let r = <i32 as PrimitiveDataType>::send_uniform_with_type(data, UniformType::Value);
        proof {
            lemma_flat_map_singletons(
                data@,
                |v: i32| v.wide_flat_spec(),
                |v: i32| v.promote_spec(),
            );
        }
        r
    }

    fn byte_len() -> usize {
        4
    }

    fn append_bytes(&self, out: &mut Vec<u8>) {
        u32_le_append(i32_bits(*self), out);
    }

    fn decode_at(bytes: &[u8], i: usize) -> i32 {
        i32_unbits(u32_le_read(bytes, i))
    }
}

impl PrimitiveDataType for i32 {
    open spec fn promote_spec(self) -> Wide {
        Wide::Int(self)
    }

    proof fn lemma_scalar_width() {
    }

    fn internal_format_with_size(size: u32) -> u32 {
        BaseKind::Int32.internal_format_with_size(size)
    }

    fn send_uniform_with_type(data: &Vec<i32>, type_: UniformType) -> (r: Result<
        UniformTransfer,
        CoreError,
    >) {
        match type_ {
            UniformType::Mat2 | UniformType::Mat3 | UniformType::Mat4 => Err(
                CoreError::UnsupportedUniformType,
            ),
            _ => {
                let mut out: Vec<i32> = Vec::new();
                let mut i: usize = 0;
                while i < data.len()
                    invariant
                        i <= data.len(),
                        out@ == data@.take(i as int),
                    decreases data.len() - i,
                {
                    out.push(data[i]);
                    proof {
                        assert(data@.take(i as int + 1) =~= data@.take(i as int).push(
                            data@[i as int],
                        ));
                    }
                    i += 1;
                }
                proof {
                    assert(data@.take(data.len() as int) =~= data@);
                }
                let d = WideData::Int(out);
                proof {
                    assert(d.wides() =~= data@.map_values(|v: i32| v.promote_spec()));
                }
                Ok(UniformTransfer { rank: type_, data: d })
            },
        }
    }
}

impl DataType for u8 {
    open spec fn base_kind_spec() -> BaseKind {
        BaseKind::UInt8
    }

    open spec fn size_spec() -> u32 {
        1
    }

    open spec fn rank_spec() -> UniformType {
        UniformType::Value
    }

    open spec fn wide_kind_spec() -> WideKind {
        WideKind::UInt
    }

    open spec fn wide_flat_spec(self) -> Seq<Wide> {
        seq![Wide::UInt(self as u32)]
    }

    open spec fn bytes_spec(self) -> Seq<u8> {
        seq![self]
    }

    open spec fn byte_len_spec() -> nat {
        1
    }

    open spec fn decode_spec(b: Seq<u8>) -> u8 {
        b[0]
    }

    proof fn lemma_byte_len_pos() {
    }

    proof fn lemma_wf(self) {
    }

    fn internal_format() -> u32 {
        <u8 as PrimitiveDataType>::internal_format_with_size(1)
    }

    fn data_type() -> u32 {
        BaseKind::UInt8.data_type()
    }

    fn size() -> u32 {
        1
    }

    fn send_uniform(data: &Vec<u8>) -> (r: Result<UniformTransfer, CoreError>) {
        let r = <u8 as PrimitiveDataType>::send_uniform_with_type(data, UniformType::Value);
        proof {
            lemma_flat_map_singletons(data@, |v: u8| v.wide_flat_spec(), |v: u8| v.promote_spec());
        }
        r
    }

    fn byte_len() -> usize {
        1
    }

    fn append_bytes(&self, out: &mut Vec<u8>) {
        out.push(*self);
        proof {
            assert(out@ =~= old(out)@ + self.bytes_spec());
        }
    }

    fn decode_at(bytes: &[u8], i: usize) -> u8 {
        let b = bytes[i];
        proof {
            assert(bytes@.subrange(i as int, i as int + 1)[0] == b);
        }
        b
    }
}

impl PrimitiveDataType for u8 {
    open spec fn promote_spec(self) -> Wide {
        Wide::UInt(self as u32)
    }

    proof fn lemma_scalar_width() {
    }

    fn internal_format_with_size(size: u32) -> u32 {
        BaseKind::UInt8.internal_format_with_size(size)
    }

    fn send_uniform_with_type(data: &Vec<u8>, type_: UniformType) -> (r: Result<
        UniformTransfer,
        CoreError,
    >) {
        let mut wide: Vec<u32> = Vec::new();
        let mut i: usize = 0;
        while i < data.len()
            invariant
                i <= data.len(),
                wide@ == data@.take(i as int).map_values(|v: u8| v as u32),
            decreases data.len() - i,
        {
            wide.push(data[i] as u32);
            proof {
                assert(data@.take(i as int + 1).map_values(|v: u8| v as u32) =~= data@.take(
                    i as int,
                ).map_values(|v: u8| v as u32).push(data@[i as int] as u32));
            }
            i += 1;
        }
        proof {
            assert(data@.take(data.len() as int) =~= data@);
        }
        let r = <u32 as PrimitiveDataType>::send_uniform_with_type(&wide, type_);
        proof {
            if r is Ok {
                assert((r->Ok_0).data.wides() =~= data@.map_values(|v: u8| v.promote_spec()));
            }
        }
        r
    }
}

impl DataType for u16 {
    open spec fn base_kind_spec() -> BaseKind {
        BaseKind::UInt16
    }

    open spec fn size_spec() -> u32 {
        1
    }

    open spec fn rank_spec() -> UniformType {
        UniformType::Value
    }

    open spec fn wide_kind_spec() -> WideKind {
        WideKind::UInt
    }

    open spec fn wide_flat_spec(self) -> Seq<Wide> {
        seq![Wide::UInt(self as u32)]
    }

    open spec fn bytes_spec(self) -> Seq<u8> {
        spec_u16_le(self)
    }

    open spec fn byte_len_spec() -> nat {
        2
    }

    open spec fn decode_spec(b: Seq<u8>) -> u16 {
        spec_u16_from(b)
    }

    proof fn lemma_byte_len_pos() {
    }

    proof fn lemma_wf(self) {
        lemma_u16_le_round_trip(self);
    }

    fn internal_format() -> u32 {
        <u16 as PrimitiveDataType>::internal_format_with_size(1)
    }

    fn data_type() -> u32 {
        BaseKind::UInt16.data_type()
    }

    fn size() -> u32 {
        1
    }

    fn send_uniform(data: &Vec<u16>) -> (r: Result<UniformTransfer, CoreError>) {
        let r = <u16 as PrimitiveDataType>::send_uniform_with_type(data, UniformType::Value);
        proof {
            lemma_flat_map_singletons(
                data@,
                |v: u16| v.wide_flat_spec(),
                |v: u16| v.promote_spec(),
            );
        }
        r
    }

    fn byte_len() -> usize {
        2
    }

    fn append_bytes(&self, out: &mut Vec<u8>) {
        u16_le_append(*self, out);
    }

    fn decode_at(bytes: &[u8], i: usize) -> u16 {
        u16_le_read(bytes, i)
    }
}

impl PrimitiveDataType for u16 {
    open spec fn promote_spec(self) -> Wide {
        Wide::UInt(self as u32)
    }

    proof fn lemma_scalar_width() {
    }

    fn internal_format_with_size(size: u32) -> u32 {
        BaseKind::UInt16.internal_format_with_size(size)
    }

    fn send_uniform_with_type(data: &Vec<u16>, type_: UniformType) -> (r: Result<
        UniformTransfer,
        CoreError,
    >) {
        let mut wide: Vec<u32> = Vec::new();
        let mut i: usize = 0;
        while i < data.len()
            invariant
                i <= data.len(),
                wide@ == data@.take(i as int).map_values(|v: u16| v as u32),
            decreases data.len() - i,
        {
            wide.push(data[i] as u32);
            proof {
                assert(data@.take(i as int + 1).map_values(|v: u16| v as u32) =~= data@.take(
                    i as int,
                ).map_values(|v: u16| v as u32).push(data@[i as int] as u32));
            }
            i += 1;
        }
        proof {
            assert(data@.take(data.len() as int) =~= data@);
        }
        let r = <u32 as PrimitiveDataType>::send_uniform_with_type(&wide, type_);
        proof {
            if r is Ok {
                assert((r->Ok_0).data.wides() =~= data@.map_values(|v: u16| v.promote_spec()));
            }
        }
        r
    }
}

impl DataType for i8 {
    open spec fn base_kind_spec() -> BaseKind {
        BaseKind::Int8
    }

    open spec fn size_spec() -> u32 {
        1
    }

    open spec fn rank_spec() -> UniformType {
        UniformType::Value
    }

    open spec fn wide_kind_spec() -> WideKind {
        WideKind::Int
    }

    open spec fn wide_flat_spec(self) -> Seq<Wide> {
        seq![Wide::Int(self as i32)]
    }

    open spec fn bytes_spec(self) -> Seq<u8> {
        seq![spec_i8_bits(self)]
    }

    open spec fn byte_len_spec() -> nat {
        1
    }

    open spec fn decode_spec(b: Seq<u8>) -> i8 {
        spec_i8_from(b[0])
    }

    proof fn lemma_byte_len_pos() {
    }

    proof fn lemma_wf(self) {
        lemma_i8_bits_round_trip(self);
    }

    fn internal_format() -> u32 {
        <i8 as PrimitiveDataType>::internal_format_with_size(1)
    }

    fn data_type() -> u32 {
        BaseKind::Int8.data_type()
    }

    fn size() -> u32 {
        1
    }

    fn send_uniform(data: &Vec<i8>) -> (r: Result<UniformTransfer, CoreError>) {
        let r = <i8 as PrimitiveDataType>::send_uniform_with_type(data, UniformType::Value);
        proof {
            lemma_flat_map_singletons(data@, |v: i8| v.wide_flat_spec(), |v: i8| v.promote_spec());
        }
        r
    }

    fn byte_len() -> usize {
        1
    }

    fn append_bytes(&self, out: &mut Vec<u8>) {
        out.push(i8_bits(*self));
        proof {
            assert(out@ =~= old(out)@ + self.bytes_spec());
        }
    }

    fn decode_at(bytes: &[u8], i: usize) -> i8 {
        let b = bytes[i];
        proof {
            assert(bytes@.subrange(i as int, i as int + 1)[0] == b);
        }
        i8_unbits(b)
    }
}

impl PrimitiveDataType for i8 {
    open spec fn promote_spec(self) -> Wide {
        Wide::Int(self as i32)
    }

    proof fn lemma_scalar_width() {
    }

    fn internal_format_with_size(size: u32) -> u32 {
        BaseKind::Int8.internal_format_with_size(size)
    }

    fn send_uniform_with_type(data: &Vec<i8>, type_: UniformType) -> (r: Result<
        UniformTransfer,
        CoreError,
    >) {
        let mut wide: Vec<i32> = Vec::new();
        let mut i: usize = 0;
        while i < data.len()
            invariant
                i <= data.len(),
                wide@ == data@.take(i as int).map_values(|v: i8| v as i32),
            decreases data.len() - i,
        {
            wide.push(data[i] as i32);
            proof {
                assert(data@.take(i as int + 1).map_values(|v: i8| v as i32) =~= data@.take(
                    i as int,
                ).map_values(|v: i8| v as i32).push(data@[i as int] as i32));
            }
            i += 1;
        }
        proof {
            assert(data@.take(data.len() as int) =~= data@);
        }
        let r = <i32 as PrimitiveDataType>::send_uniform_with_type(&wide, type_);
        proof {
            if r is Ok {
                assert((r->Ok_0).data.wides() =~= data@.map_values(|v: i8| v.promote_spec()));
            }
        }
        r
    }
}

impl DataType for i16 {
    open spec fn base_kind_spec() -> BaseKind {
        BaseKind::Int16
    }

    open spec fn size_spec() -> u32 {
        1
    }

    open spec fn rank_spec() -> UniformType {
        UniformType::Value
    }

    open spec fn wide_kind_spec() -> WideKind {
        WideKind::Int
    }

    open spec fn wide_flat_spec(self) -> Seq<Wide> {
        seq![Wide::Int(self as i32)]
    }

    open spec fn bytes_spec(self) -> Seq<u8> {
        spec_u16_le(spec_i16_bits(self))
    }

    open spec fn byte_len_spec() -> nat {
        2
    }

    open spec fn decode_spec(b: Seq<u8>) -> i16 {
        spec_i16_from(spec_u16_from(b))
    }

    proof fn lemma_byte_len_pos() {
    }

    proof fn lemma_wf(self) {
        lemma_u16_le_round_trip(spec_i16_bits(self));
        lemma_i16_bits_round_trip(self);
    }

    fn internal_format() -> u32 {
        <i16 as PrimitiveDataType>::internal_format_with_size(1)
    }

    fn data_type() -> u32 {
        BaseKind::Int16.data_type()
    }

    fn size() -> u32 {
        1
    }

    fn send_uniform(data: &Vec<i16>) -> (r: Result<UniformTransfer, CoreError>) {
        let r = <i16 as PrimitiveDataType>::send_uniform_with_type(data, UniformType::Value);
        proof {
            lemma_flat_map_singletons(
                data@,
                |v: i16| v.wide_flat_spec(),
                |v: i16| v.promote_spec(),
            );
        }
        r
    }

    fn byte_len() -> usize {
        2
    }

    fn append_bytes(&self, out: &mut Vec<u8>) {
        u16_le_append(i16_bits(*self), out);
    }

    fn decode_at(bytes: &[u8], i: usize) -> i16 {
        i16_unbits(u16_le_read(bytes, i))
    }
}

impl PrimitiveDataType for i16 {
    open spec fn promote_spec(self) -> Wide {
        Wide::Int(self as i32)
    }

    proof fn lemma_scalar_width() {
    }

    fn internal_format_with_size(size: u32) -> u32 {
        BaseKind::Int16.internal_format_with_size(size)
    }

    fn send_uniform_with_type(data: &Vec<i16>, type_: UniformType) -> (r: Result<
        UniformTransfer,
        CoreError,
    >) {
        let mut wide: Vec<i32> = Vec::new();
        let mut i: usize = 0;
        while i < data.len()
            invariant
                i <= data.len(),
                wide@ == data@.take(i as int).map_values(|v: i16| v as i32),
            decreases data.len() - i,
        {
            wide.push(data[i] as i32);
            proof {
                assert(data@.take(i as int + 1).map_values(|v: i16| v as i32) =~= data@.take(
                    i as int,
                ).map_values(|v: i16| v as i32).push(data@[i as int] as i32));
            }
            i += 1;
        }
        proof {
            assert(data@.take(data.len() as int) =~= data@);
        }
        let r = <i32 as PrimitiveDataType>::send_uniform_with_type(&wide, type_);
        proof {
            if r is Ok {
                assert((r->Ok_0).data.wides() =~= data@.map_values(|v: i16| v.promote_spec()));
            }
        }
        r
    }
}

impl DataType for F16 {
    open spec fn base_kind_spec() -> BaseKind {
        BaseKind::Float16
    }

    open spec fn size_spec() -> u32 {
        1
    }

    open spec fn rank_spec() -> UniformType {
        UniformType::Value
    }

    open spec fn wide_kind_spec() -> WideKind {
        WideKind::Float
    }

    open spec fn wide_flat_spec(self) -> Seq<Wide> {
        seq![Wide::Float(spec_f16_bits(self.bits))]
    }

    open spec fn bytes_spec(self) -> Seq<u8> {
        spec_u16_le(self.bits)
    }

    open spec fn byte_len_spec() -> nat {
        2
    }

    open spec fn decode_spec(b: Seq<u8>) -> F16 {
        F16 { bits: spec_u16_from(b) }
    }

    proof fn lemma_byte_len_pos() {
    }

    proof fn lemma_wf(self) {
        lemma_u16_le_round_trip(self.bits);
    }

    fn internal_format() -> u32 {
        <F16 as PrimitiveDataType>::internal_format_with_size(1)
    }

    fn data_type() -> u32 {
        BaseKind::Float16.data_type()
    }

    fn size() -> u32 {
        1
    }

    fn send_uniform(data: &Vec<F16>) -> (r: Result<UniformTransfer, CoreError>) {
        let r = <F16 as PrimitiveDataType>::send_uniform_with_type(data, UniformType::Value);
        proof {
            lemma_flat_map_singletons(
                data@,
                |v: F16| v.wide_flat_spec(),
                |v: F16| v.promote_spec(),
            );
        }
        r
    }

    fn byte_len() -> usize {
        2
    }

    fn append_bytes(&self, out: &mut Vec<u8>) {
        u16_le_append(self.bits, out);
    }

    fn decode_at(bytes: &[u8], i: usize) -> F16 {
        F16 { bits: u16_le_read(bytes, i) }
    }
}

impl PrimitiveDataType for F16 {
    open spec fn promote_spec(self) -> Wide {
        Wide::Float(spec_f16_bits(self.bits))
    }

    proof fn lemma_scalar_width() {
    }

    fn internal_format_with_size(size: u32) -> u32 {
        BaseKind::Float16.internal_format_with_size(size)
    }

    fn send_uniform_with_type(data: &Vec<F16>, type_: UniformType) -> (r: Result<
        UniformTransfer,
        CoreError,
    >) {
        let mut wide: Vec<F32> = Vec::new();
        let mut i: usize = 0;
        while i < data.len()
            invariant
                i <= data.len(),
                wide@ == data@.take(i as int).map_values(
                    |v: F16| F32 { bits: spec_f16_bits(v.bits) },
                ),
            decreases data.len() - i,
        {
            wide.push(F32 { bits: f16_widen_bits(data[i].bits) });
            proof {
                assert(data@.take(i as int + 1).map_values(
                    |v: F16| F32 { bits: spec_f16_bits(v.bits) },
                ) =~= data@.take(i as int).map_values(
                    |v: F16| F32 { bits: spec_f16_bits(v.bits) },
                ).push(F32 { bits: spec_f16_bits(data@[i as int].bits) }));
            }
            i += 1;
        }
        proof {
            assert(data@.take(data.len() as int) =~= data@);
        }
        let r = <F32 as PrimitiveDataType>::send_uniform_with_type(&wide, type_);
        proof {
            if r is Ok {
                assert((r->Ok_0).data.wides() =~= data@.map_values(|v: F16| v.promote_spec()));
            }
        }
        r
    }
}

} // verus!
