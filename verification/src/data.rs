//! The typed data-transfer interface.
//!
//! [`DataType`] classifies a host-side value type: its base numeric kind,
//! its shape rank, its component count, and its byte encoding for bulk
//! upload.  [`PrimitiveDataType`] marks the scalar kinds that composite
//! shapes are built from and adds the widening step of a uniform transfer.
//! A transfer itself is described by [`UniformTransfer`]: the rank to
//! dispatch on and the flat run of widened scalars, in order.

use crate::error::CoreError;
use crate::kind::{image_format, spec_data_type_tag, spec_image_format, spec_storage_format, BaseKind};
use vstd::prelude::*;

verus! {

/// The shape category of a uniform value: a single scalar, a vector of 2,
/// 3 or 4 components, or a square matrix of side 2, 3 or 4.
#[derive(Clone, Copy, Debug, PartialEq, Eq, Structural)]
pub enum UniformType {
    Value,
    Vec2,
    Vec3,
    Vec4,
    Mat2,
    Mat3,
    Mat4,
}

impl UniformType {
    /// How many flat scalars one logical value of this rank expands to.
    pub open spec fn spec_flat_count(self) -> u32 {
        match self {
            UniformType::Value => 1,
            UniformType::Vec2 => 2,
            UniformType::Vec3 => 3,
            UniformType::Vec4 => 4,
            UniformType::Mat2 => 4,
            UniformType::Mat3 => 9,
            UniformType::Mat4 => 16,
        }
    }

    /// Whether this rank is a matrix rank.
    pub open spec fn spec_is_matrix(self) -> bool {
        self is Mat2 || self is Mat3 || self is Mat4
    }

    /// How many flat scalars one logical value of this rank expands to.
    pub fn flat_count(self) -> (r: u32)
        ensures
            r == self.spec_flat_count(),
    {
        match self {
            UniformType::Value => 1,
            UniformType::Vec2 => 2,
            UniformType::Vec3 => 3,
            UniformType::Vec4 => 4,
            UniformType::Mat2 => 4,
            UniformType::Mat3 => 9,
            UniformType::Mat4 => 16,
        }
    }
}

/// A scalar after widening to a natively transferable kind: a 32-bit
/// unsigned or signed integer, or a 32-bit float carried as its bit
/// pattern.
#[derive(Clone, Copy, Debug, PartialEq, Eq, Structural)]
pub enum Wide {
    UInt(u32),
    Int(i32),
    Float(u32),
}

/// The three widened scalar families.
#[derive(Clone, Copy, Debug, PartialEq, Eq, Structural)]
pub enum WideKind {
    UInt,
    Int,
    Float,
}

/// A flat run of widened scalars, kept in its family's native
/// representation so a caller can hand it to a transfer entry point
/// directly.  Float scalars are 32-bit float bit patterns.
#[derive(Clone, Debug)]
pub enum WideData {
    UInt(Vec<u32>),
    Int(Vec<i32>),
    Float(Vec<u32>),
}

impl WideData {
    /// The run as a sequence of tagged widened scalars.
    pub open spec fn wides(self) -> Seq<Wide> {
        match self {
            WideData::UInt(v) => v@.map_values(|x: u32| Wide::UInt(x)),
            WideData::Int(v) => v@.map_values(|x: i32| Wide::Int(x)),
            WideData::Float(v) => v@.map_values(|x: u32| Wide::Float(x)),
        }
    }

    /// The family of the run.
    pub open spec fn kind(self) -> WideKind {
        match self {
            WideData::UInt(_) => WideKind::UInt,
            WideData::Int(_) => WideKind::Int,
            WideData::Float(_) => WideKind::Float,
        }
    }

    /// The number of scalars in the run.
    pub fn len(&self) -> (n: usize)
        ensures
            n == self.wides().len(),
    {
        match self {
            WideData::UInt(v) => v.len(),
            WideData::Int(v) => v.len(),
            WideData::Float(v) => v.len(),
        }
    }
}

/// A fully resolved uniform transfer: the rank selecting the entry point,
/// and the flat widened scalar run to hand to it.  Matrix runs are
/// column-major and are meant to be passed non-transposed.
#[derive(Clone, Debug)]
pub struct UniformTransfer {
    pub rank: UniformType,
    pub data: WideData,
}

/// Whether a widened family has a transfer entry point at the given rank:
/// every family has the scalar and vector entry points, only floats have
/// the matrix ones.
pub open spec fn spec_supports(kind: WideKind, rank: UniformType) -> bool {
    kind is Float || !rank.spec_is_matrix()
}

/// A host-side value type that can be transferred to the GPU: a scalar
/// kind, or a composite shape (vector, quaternion, packed color, matrix)
/// over one.
pub trait DataType: Sized + Copy {
    /// The base numeric kind that storage formats and the wire tag are
    /// chosen by.
    spec fn base_kind_spec() -> BaseKind;

    /// The component count used for storage-format selection: the arity of
    /// a vector, the element count of a matrix, 1 for a scalar.
    spec fn size_spec() -> u32;

    /// The rank a uniform transfer of this type dispatches on.
    spec fn rank_spec() -> UniformType;

    /// The widened family the flat run of this type belongs to.
    spec fn wide_kind_spec() -> WideKind;

    /// The flat run of widened scalars of one value, in component order.
    spec fn wide_flat_spec(self) -> Seq<Wide>;

    /// The byte encoding of one value, little-endian per scalar, components
    /// in order.
    spec fn bytes_spec(self) -> Seq<u8>;

    /// The byte length of every encoded value.
    spec fn byte_len_spec() -> nat;

    /// The value a byte encoding decodes back to.
    spec fn decode_spec(b: Seq<u8>) -> Self;

    /// Every encoded value of this type has at least one byte.
    proof fn lemma_byte_len_pos()
        ensures
            Self::byte_len_spec() > 0,
    ;

    /// Well-formedness of the classification and the byte codec: the
    /// encoding has the fixed length, decoding inverts it, and the flat
    /// run has the rank's flat count.
    proof fn lemma_wf(self)
        ensures
            self.bytes_spec().len() == Self::byte_len_spec(),
            Self::decode_spec(self.bytes_spec()) == self,
            self.wide_flat_spec().len() == Self::rank_spec().spec_flat_count(),
    ;

    /// The storage-format tag of this type, from its base kind and its
    /// component count.  Only meaningful for component counts in `1..=4`;
    /// the 3x3 and 4x4 matrix types have none.
    fn internal_format() -> (r: u32)
        requires
            1 <= Self::size_spec() <= 4,
        ensures
            r == spec_storage_format(Self::base_kind_spec(), Self::size_spec()),
    ;

    /// The on-wire data-type tag of this type's base kind.
    fn data_type() -> (r: u32)
        ensures
            r == spec_data_type_tag(Self::base_kind_spec()),
    ;

    /// The component count of this type.
    fn size() -> (r: u32)
        ensures
            r == Self::size_spec(),
    ;

    /// Resolves a uniform transfer for an array of this type: flattens the
    /// array into one flat scalar run in component order, widens every
    /// scalar, and selects the entry point of this type's rank.  Fails
    /// exactly when the widened family has no entry point at that rank (an
    /// integer matrix).
    fn send_uniform(data: &Vec<Self>) -> (r: Result<UniformTransfer, CoreError>)
        ensures
            r is Ok <==> spec_supports(Self::wide_kind_spec(), Self::rank_spec()),
            r is Ok ==> r->Ok_0.rank == Self::rank_spec(),
            r is Ok ==> r->Ok_0.data.kind() == Self::wide_kind_spec(),
            r is Ok ==> r->Ok_0.data.wides() == data@.flat_map(|v: Self| v.wide_flat_spec()),
            r is Err ==> r->Err_0 is UnsupportedUniformType,
    ;

    /// The byte length of every encoded value.
    fn byte_len() -> (r: usize)
        ensures
            r == Self::byte_len_spec(),
    ;

    /// Appends the byte encoding of this value.
    fn append_bytes(&self, out: &mut Vec<u8>)
        ensures
            final(out)@ == old(out)@ + self.bytes_spec(),
    ;

    /// Decodes one value from `bytes` at offset `i`.
    fn decode_at(bytes: &[u8], i: usize) -> (r: Self)
        requires
            i + Self::byte_len_spec() <= bytes@.len(),
        ensures
            r == Self::decode_spec(bytes@.subrange(i as int, i + Self::byte_len_spec())),
    ;
}

/// A scalar kind usable as the element of composite shapes.  Transfers of
/// narrow kinds widen every scalar: 8- and 16-bit integers to the 32-bit
/// integer of the same signedness, 16-bit floats to 32-bit floats.
pub trait PrimitiveDataType: DataType {
    /// This scalar widened to its natively transferable kind.
    spec fn promote_spec(self) -> Wide;

    /// A scalar's encoding is one to four bytes wide.
    proof fn lemma_scalar_width()
        ensures
            0 < Self::byte_len_spec() <= 4,
    ;

    /// The storage-format tag of this kind at component count `size`, for
    /// the composite shapes built over it.
    fn internal_format_with_size(size: u32) -> (r: u32)
        requires
            1 <= size <= 4,
        ensures
            r == spec_storage_format(Self::base_kind_spec(), size),
    ;

    /// Resolves a uniform transfer of an already flattened scalar run at an
    /// explicit rank: widens every scalar and selects the entry point.
    /// Fails exactly when the widened family has no entry point at that
    /// rank (an integer matrix).
    fn send_uniform_with_type(data: &Vec<Self>, type_: UniformType) -> (r: Result<
        UniformTransfer,
        CoreError,
    >)
        ensures
            r is Ok <==> spec_supports(Self::wide_kind_spec(), type_),
            r is Ok ==> r->Ok_0.rank == type_,
            r is Ok ==> r->Ok_0.data.kind() == Self::wide_kind_spec(),
            r is Ok ==> r->Ok_0.data.wides() == data@.map_values(|v: Self| v.promote_spec()),
            r is Err ==> r->Err_0 is UnsupportedUniformType,
    ;
}

/// Image-format resolution for a data type: the image-format tag of its
/// component count.  Fails exactly when the count is outside `1..=4` (the
/// 3x3 and 4x4 matrix types), never returning a default.
pub fn format_from_data_type<T: DataType>() -> (r: Result<u32, CoreError>)
    ensures
        r is Ok <==> 1 <= T::size_spec() <= 4,
        r is Ok ==> r->Ok_0 == spec_image_format(T::size_spec()),
        r is Err ==> (r->Err_0 matches CoreError::IndexOutOfRange(c, 4) && c == T::size_spec()),
{
    let s = T::size();
    image_format(s)
}

} // verus!
