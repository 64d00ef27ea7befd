//! Numeric base-kind registry.
//!
//! The closed set of GPU-compatible scalar kinds, and for each kind the
//! storage-format tag family (by component count), the on-wire data-type tag,
//! and the promotion target used when a narrow kind is transferred.

use crate::error::CoreError;
use vstd::prelude::*;

verus! {

// Storage-format tags, one family per base kind, one tag per component count.
pub const R8: u32 = 0x8229;
pub const RG8: u32 = 0x822B;
pub const RGB8: u32 = 0x8051;
pub const RGBA8: u32 = 0x8058;
pub const R16UI: u32 = 0x8234;
pub const RG16UI: u32 = 0x823A;
pub const RGB16UI: u32 = 0x8D77;
pub const RGBA16UI: u32 = 0x8D76;
pub const R32UI: u32 = 0x8236;
pub const RG32UI: u32 = 0x823C;
pub const RGB32UI: u32 = 0x8D71;
pub const RGBA32UI: u32 = 0x8D70;
pub const R8I: u32 = 0x8231;
pub const RG8I: u32 = 0x8237;
pub const RGB8I: u32 = 0x8D8F;
pub const RGBA8I: u32 = 0x8D8E;
pub const R16I: u32 = 0x8233;
pub const RG16I: u32 = 0x8239;
pub const RGB16I: u32 = 0x8D89;
pub const RGBA16I: u32 = 0x8D88;
pub const R32I: u32 = 0x8235;
pub const RG32I: u32 = 0x823B;
pub const RGB32I: u32 = 0x8D83;
pub const RGBA32I: u32 = 0x8D82;
pub const R16F: u32 = 0x822D;
pub const RG16F: u32 = 0x822F;
pub const RGB16F: u32 = 0x881B;
pub const RGBA16F: u32 = 0x881A;
pub const R32F: u32 = 0x822E;
pub const RG32F: u32 = 0x8230;
pub const RGB32F: u32 = 0x8815;
pub const RGBA32F: u32 = 0x8814;

// Image (pixel transfer) format tags, one per component count.
pub const RED: u32 = 0x1903;
pub const RG: u32 = 0x8227;
pub const RGB: u32 = 0x1907;
pub const RGBA: u32 = 0x1908;

// On-wire scalar data-type tags, one per base kind.
pub const UNSIGNED_BYTE: u32 = 0x1401;
pub const UNSIGNED_SHORT: u32 = 0x1403;
pub const UNSIGNED_INT: u32 = 0x1405;
pub const BYTE: u32 = 0x1400;
pub const SHORT: u32 = 0x1402;
pub const INT: u32 = 0x1404;
pub const HALF_FLOAT: u32 = 0x140B;
pub const FLOAT: u32 = 0x1406;

/// A GPU-compatible scalar numeric kind: a fixed width and a signedness or
/// floatness.  Sixteen-bit floats are identified by their bit width; their
/// values are carried as bit patterns throughout this crate.
#[derive(Clone, Copy, Debug, PartialEq, Eq, Structural)]
pub enum BaseKind {
    UInt8,
    UInt16,
    UInt32,
    Int8,
    Int16,
    Int32,
    Float16,
    Float32,
}

/// The storage-format tag chosen for `kind` at a component count in
/// `1..=4`.  Other counts have no meaning; see [`storage_format`].
pub open spec fn spec_storage_format(kind: BaseKind, count: u32) -> u32 {
    match kind {
        BaseKind::UInt8 => if count == 1 { R8 } else if count == 2 { RG8 } else if count == 3 { RGB8 } else { RGBA8 },
        BaseKind::UInt16 => if count == 1 { R16UI } else if count == 2 { RG16UI } else if count == 3 { RGB16UI } else { RGBA16UI },
        BaseKind::UInt32 => if count == 1 { R32UI } else if count == 2 { RG32UI } else if count == 3 { RGB32UI } else { RGBA32UI },
        BaseKind::Int8 => if count == 1 { R8I } else if count == 2 { RG8I } else if count == 3 { RGB8I } else { RGBA8I },
        BaseKind::Int16 => if count == 1 { R16I } else if count == 2 { RG16I } else if count == 3 { RGB16I } else { RGBA16I },
        BaseKind::Int32 => if count == 1 { R32I } else if count == 2 { RG32I } else if count == 3 { RGB32I } else { RGBA32I },
        BaseKind::Float16 => if count == 1 { R16F } else if count == 2 { RG16F } else if count == 3 { RGB16F } else { RGBA16F },
        BaseKind::Float32 => if count == 1 { R32F } else if count == 2 { RG32F } else if count == 3 { RGB32F } else { RGBA32F },
    }
}

/// The image-format tag for a component count in `1..=4`.
pub open spec fn spec_image_format(count: u32) -> u32 {
    if count == 1 { RED } else if count == 2 { RG } else if count == 3 { RGB } else { RGBA }
}

/// The on-wire data-type tag of `kind`.
pub open spec fn spec_data_type_tag(kind: BaseKind) -> u32 {
    match kind {
        BaseKind::UInt8 => UNSIGNED_BYTE,
        BaseKind::UInt16 => UNSIGNED_SHORT,
        BaseKind::UInt32 => UNSIGNED_INT,
        BaseKind::Int8 => BYTE,
        BaseKind::Int16 => SHORT,
        BaseKind::Int32 => INT,
        BaseKind::Float16 => HALF_FLOAT,
        BaseKind::Float32 => FLOAT,
    }
}

/// The kind a scalar of `kind` is widened to before a uniform transfer:
/// narrow integers widen to the 32-bit integer of the same signedness,
/// 16-bit floats widen to 32-bit floats, and the 32-bit kinds stand.
pub open spec fn spec_promoted(kind: BaseKind) -> BaseKind {
    match kind {
        BaseKind::UInt8 | BaseKind::UInt16 | BaseKind::UInt32 => BaseKind::UInt32,
        BaseKind::Int8 | BaseKind::Int16 | BaseKind::Int32 => BaseKind::Int32,
        BaseKind::Float16 | BaseKind::Float32 => BaseKind::Float32,
    }
}

impl BaseKind {
    /// The storage-format tag of this kind at component count `size`.
    pub fn internal_format_with_size(self, size: u32) -> (r: u32)
        requires
            1 <= size <= 4,
        ensures
            r == spec_storage_format(self, size),
    {
        match self {
            BaseKind::UInt8 => if size == 1 { R8 } else if size == 2 { RG8 } else if size == 3 { RGB8 } else { RGBA8 },
            BaseKind::UInt16 => if size == 1 { R16UI } else if size == 2 { RG16UI } else if size == 3 { RGB16UI } else { RGBA16UI },
            BaseKind::UInt32 => if size == 1 { R32UI } else if size == 2 { RG32UI } else if size == 3 { RGB32UI } else { RGBA32UI },
            BaseKind::Int8 => if size == 1 { R8I } else if size == 2 { RG8I } else if size == 3 { RGB8I } else { RGBA8I },
            BaseKind::Int16 => if size == 1 { R16I } else if size == 2 { RG16I } else if size == 3 { RGB16I } else { RGBA16I },
            BaseKind::Int32 => if size == 1 { R32I } else if size == 2 { RG32I } else if size == 3 { RGB32I } else { RGBA32I },
            BaseKind::Float16 => if size == 1 { R16F } else if size == 2 { RG16F } else if size == 3 { RGB16F } else { RGBA16F },
            BaseKind::Float32 => if size == 1 { R32F } else if size == 2 { RG32F } else if size == 3 { RGB32F } else { RGBA32F },
        }
    }

    /// The on-wire data-type tag of this kind.
    pub fn data_type(self) -> (r: u32)
        ensures
            r == spec_data_type_tag(self),
    {
        match self {
            BaseKind::UInt8 => UNSIGNED_BYTE,
            BaseKind::UInt16 => UNSIGNED_SHORT,
            BaseKind::UInt32 => UNSIGNED_INT,
            BaseKind::Int8 => BYTE,
            BaseKind::Int16 => SHORT,
            BaseKind::Int32 => INT,
            BaseKind::Float16 => HALF_FLOAT,
            BaseKind::Float32 => FLOAT,
        }
    }

    /// The kind this kind is widened to before a uniform transfer.
    pub fn promoted(self) -> (r: BaseKind)
        ensures
            r == spec_promoted(self),
    {
        match self {
            BaseKind::UInt8 | BaseKind::UInt16 | BaseKind::UInt32 => BaseKind::UInt32,
            BaseKind::Int8 | BaseKind::Int16 | BaseKind::Int32 => BaseKind::Int32,
            BaseKind::Float16 | BaseKind::Float32 => BaseKind::Float32,
        }
    }
}

/// Storage-format resolution over the full input range: component counts
/// outside `1..=4` are a caller error and are rejected, never defaulted.
pub fn storage_format(kind: BaseKind, count: u32) -> (r: Result<u32, CoreError>)
    ensures
        r is Ok <==> 1 <= count <= 4,
        r is Ok ==> r->Ok_0 == spec_storage_format(kind, count),
        r is Err ==> (r->Err_0 matches CoreError::IndexOutOfRange(c, 4) && c == count),
{
    if 1 <= count && count <= 4 {
        Ok(kind.internal_format_with_size(count))
    } else {
        Err(CoreError::IndexOutOfRange(count as usize, 4))
    }
}

/// Image-format resolution over the full input range: component counts
/// outside `1..=4` are a caller error and are rejected, never defaulted.
pub fn image_format(count: u32) -> (r: Result<u32, CoreError>)
    ensures
        r is Ok <==> 1 <= count <= 4,
        r is Ok ==> r->Ok_0 == spec_image_format(count),
        r is Err ==> (r->Err_0 matches CoreError::IndexOutOfRange(c, 4) && c == count),
{
    if count == 1 {
        Ok(RED)
    } else if count == 2 {
        Ok(RG)
    } else if count == 3 {
        Ok(RGB)
    } else if count == 4 {
        Ok(RGBA)
    } else {
        Err(CoreError::IndexOutOfRange(count as usize, 4))
    }
}

} // verus!
