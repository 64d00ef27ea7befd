//! Typed uniform and data-transfer core for a GPU graphics layer.
//!
//! The crate maps host-side value types (scalars, vectors, matrices,
//! quaternions, packed colors, in several numeric precisions) to GPU-side
//! descriptions: a base numeric kind, a shape rank, a storage-format tag and
//! an on-wire data-type tag.  It flattens typed arrays into flat scalar runs
//! in a fixed component order, widens narrow kinds to their natively
//! transferable width, and encodes typed arrays as raw byte payloads for bulk
//! upload.  The actual submission of the resulting transfer description to a
//! graphics context is left to the caller.

pub mod error;
pub mod flat;
pub mod kind;
pub mod bits;
pub mod codec;
pub mod data;
pub mod scalars;
pub mod composites;
pub mod arrays;
pub mod bytes;

pub use bytes::{from_byte_slice, to_byte_slice};
pub use composites::{Color, Matrix2, Matrix3, Matrix4, Quaternion, Vector2, Vector3, Vector4};
pub use data::{
    format_from_data_type, DataType, PrimitiveDataType, UniformTransfer, UniformType, Wide,
    WideData, WideKind,
};
pub use error::CoreError;
pub use kind::{image_format, storage_format, BaseKind};
pub use scalars::{F16, F32};
