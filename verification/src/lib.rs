//! Option translation and override aggregation for a shader cross-compiler.
//!
//! The heavy lifting — parsing the intermediate representation, rebuilding
//! control flow, emitting target-language source — lives in a wrapped native
//! compiler that a caller drives through a foreign boundary. This crate is the
//! layer in front of it: a typed configuration surface, pure translators from
//! the high-level enumerations to the flat encodings the native compiler
//! expects, ordered override tables marshalled into contiguous arrays, and the
//! decision logic of a compilation session (which outcome of each native call
//! yields which result, and when the cached override arrays are replaced).

pub mod msl;
pub mod overrides;
pub mod spirv;

use vstd::prelude::*;

verus! {

/// Errors a compilation session reports. Every native error code is carried
/// through unchanged so the caller can diagnose the failure.
#[derive(Debug, Clone, PartialEq, Eq)]
pub enum ErrorCode {
    /// The native layer rejected the input intermediate representation.
    ConstructionError(u32),
    /// The native layer rejected the submitted flat options record.
    ConfigurationError(u32),
    /// Native code generation failed.
    CompilationError(u32),
    /// The native output was not valid text.
    EncodingError,
    /// A native query failed.
    QueryError(u32),
}

} // verus!
