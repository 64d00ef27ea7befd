//! Error taxonomy of the core module.

use vstd::prelude::*;

verus! {

/// Error raised by the core graphics layer.
///
/// Recoverable mismatches (wrong buffer or texture length, unused shader
/// bindings, shader build failures reported by the context) carry a
/// description; invariant violations about the closed component-count set
/// are reported as [`CoreError::IndexOutOfRange`].
#[derive(Debug, Clone)]
pub enum CoreError {
    ContextCreation(String),
    ContextError(String),
    ShaderCreation(String),
    ProgramCreation(String),
    BufferCreation(String),
    ShaderCompilation(String, String),
    ShaderLink(String),
    UnusedUniform(String),
    UnusedAttribute(String),
    RenderTargetCreation(String),
    RenderTargetCopy(String, String),
    ReadWrongFormat,
    TextureCreation(String),
    InvalidTextureLength(usize, usize),
    MissingMeshBuffer(String),
    MissingBitangent,
    InvalidBufferLength(String, usize, usize),
    FailedComputingTangents,
    InvalidNumberOfVertices(usize),
    InvalidUniformBufferElementLength(u32, usize, usize),
    IndexOutOfRange(usize, usize),
    NegativeDistance,
    MinimumLargerThanMaximum,
    /// A uniform transfer was requested for a rank that has no entry point
    /// for the value's base numeric kind (an integer matrix).
    UnsupportedUniformType,
}

} // verus!
