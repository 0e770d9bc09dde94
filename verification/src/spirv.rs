//! Pipeline-level enumerations shared by every compiler target, with their
//! flat encodings. Each translator is total: every variant has exactly one
//! target encoding, and the mapping never fails.

use vstd::prelude::*;

verus! {

/// The shader pipeline stage an entry point or a resource binding applies to.
#[derive(Debug, Copy, Clone, Hash, Eq, PartialEq, Ord, PartialOrd, Structural)]
pub enum ExecutionModel {
    Vertex,
    TessellationControl,
    TessellationEvaluation,
    Geometry,
    Fragment,
    GlCompute,
    Kernel,
}

/// The flat encoding of an execution stage.
pub open spec fn execution_model_raw(m: ExecutionModel) -> u32 {
    match m {
        ExecutionModel::Vertex => 0,
        ExecutionModel::TessellationControl => 1,
        ExecutionModel::TessellationEvaluation => 2,
        ExecutionModel::Geometry => 3,
        ExecutionModel::Fragment => 4,
        ExecutionModel::GlCompute => 5,
        ExecutionModel::Kernel => 6,
    }
}

impl ExecutionModel {
    /// Translate the stage into its flat encoding.
    pub fn as_raw(self) -> (r: u32)
        ensures
            r == execution_model_raw(self),
    {
        match self {
            ExecutionModel::Vertex => 0,
            ExecutionModel::TessellationControl => 1,
            ExecutionModel::TessellationEvaluation => 2,
            ExecutionModel::Geometry => 3,
            ExecutionModel::Fragment => 4,
            ExecutionModel::GlCompute => 5,
            ExecutionModel::Kernel => 6,
        }
    }
}

/// The flat encoding distinguishes every stage.
pub proof fn lemma_execution_model_raw_injective(a: ExecutionModel, b: ExecutionModel)
    requires
        execution_model_raw(a) == execution_model_raw(b),
    ensures
        a == b,
{
}

/// How a vertex attribute advances: once per vertex or once per instance.
#[derive(Debug, Copy, Clone, Hash, Eq, PartialEq, Structural)]
pub enum VertexAttributeStep {
    Vertex,
    Instance,
}

/// Built-in semantic a vertex attribute may carry instead of a plain location.
#[derive(Debug, Copy, Clone, Hash, Eq, PartialEq, Structural)]
pub enum BuiltIn {
    Position,
    PointSize,
    ClipDistance,
    CullDistance,
    VertexIndex,
    InstanceIndex,
    FragCoord,
    FragDepth,
}

/// The flat encoding of a built-in semantic.
pub open spec fn spec_built_in_raw(b: BuiltIn) -> u32 {
    match b {
        BuiltIn::Position => 0,
        BuiltIn::PointSize => 1,
        BuiltIn::ClipDistance => 3,
        BuiltIn::CullDistance => 4,
        BuiltIn::VertexIndex => 42,
        BuiltIn::InstanceIndex => 43,
        BuiltIn::FragCoord => 15,
        BuiltIn::FragDepth => 22,
    }
}

/// Sentinel encoding an absent built-in semantic in a flat record.
pub const BUILT_IN_NONE: u32 = 0x7fff_ffff;

/// The flat encoding of an optional built-in semantic: the sentinel when
/// absent, the semantic's own encoding when present.
pub open spec fn spec_built_in_option_raw(b: Option<BuiltIn>) -> u32 {
    match b {
        None => BUILT_IN_NONE,
        Some(inner) => spec_built_in_raw(inner),
    }
}

/// Translate an optional built-in semantic into its flat encoding.
pub fn built_in_as_raw(b: Option<BuiltIn>) -> (r: u32)
    ensures
        r == spec_built_in_option_raw(b),
{
    match b {
        None => BUILT_IN_NONE,
        Some(BuiltIn::Position) => 0,
        Some(BuiltIn::PointSize) => 1,
        Some(BuiltIn::ClipDistance) => 3,
        Some(BuiltIn::CullDistance) => 4,
        Some(BuiltIn::VertexIndex) => 42,
        Some(BuiltIn::InstanceIndex) => 43,
        Some(BuiltIn::FragCoord) => 15,
        Some(BuiltIn::FragDepth) => 22,
    }
}

/// A shader module: the intermediate representation as a stream of 32-bit
/// words, exactly as the native parser consumes it.
pub struct Module<'a> {
    /// The raw words of the intermediate representation.
    pub words: &'a [u32],
}

impl<'a> Module<'a> {
    /// Wrap a word stream as a module.
    pub fn from_words(words: &'a [u32]) -> (r: Module<'a>)
        ensures
            r.words@ == words@,
    {
        Module { words }
    }
}

} // verus!
