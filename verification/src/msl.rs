//! The compiler target: its option surface, the pure translators into the
//! flat encodings its native layer expects, the override tables, and the
//! decision logic of a compilation session.

use vstd::prelude::*;

use crate::ErrorCode;
use crate::overrides::ResourceBindingOverrides;
use crate::overrides::VertexAttributeOverrides;
use crate::spirv::BuiltIn;
use crate::spirv::ExecutionModel;
use crate::spirv::VertexAttributeStep;
use crate::spirv::execution_model_raw;
use crate::spirv::spec_built_in_option_raw;

verus! {

/// Marker for this compiler target.
#[derive(Debug, Clone)]
pub struct Target;

/// Location of a vertex attribute to override.
#[derive(Debug, Copy, Clone, Hash, Eq, PartialEq, Ord, PartialOrd, Structural)]
pub struct VertexAttributeLocation(pub u32);

/// Vertex attribute description for overriding. Immutable once inserted;
/// replaced wholesale on re-insertion at the same location.
#[derive(Debug, Copy, Clone, Hash, Eq, PartialEq)]
pub struct VertexAttribute {
    pub buffer_id: u32,
    pub offset: u32,
    pub stride: u32,
    pub step: VertexAttributeStep,
    pub format: Format,
    pub built_in: Option<BuiltIn>,
}

/// Location of a resource binding to override: a composite key, ordered
/// lexicographically by stage, then descriptor set, then binding.
#[derive(Debug, Copy, Clone, Hash, Eq, PartialEq, Ord, PartialOrd, Structural)]
pub struct ResourceBindingLocation {
    pub stage: ExecutionModel,
    pub desc_set: u32,
    pub binding: u32,
}

/// Resource binding description for overriding: the native-side resource
/// indices a logical binding maps to.
#[derive(Debug, Copy, Clone, Hash, Eq, PartialEq, Structural)]
pub struct ResourceBinding {
    pub buffer_id: u32,
    pub texture_id: u32,
    pub sampler_id: u32,
}

/// Flat vertex-attribute override record, the key fields inlined, as the
/// native compiler consumes it.
#[derive(Debug, Copy, Clone, Hash, Eq, PartialEq, Structural)]
pub struct RawVertexAttribute {
    pub location: u32,
    pub msl_buffer: u32,
    pub msl_offset: u32,
    pub msl_stride: u32,
    pub per_instance: bool,
    pub format: u32,
    pub builtin: u32,
}

/// Flat resource-binding override record, the key fields inlined, as the
/// native compiler consumes it.
#[derive(Debug, Copy, Clone, Hash, Eq, PartialEq, Structural)]
pub struct RawResourceBinding {
    pub stage: u32,
    pub desc_set: u32,
    pub binding: u32,
    pub msl_buffer: u32,
    pub msl_texture: u32,
    pub msl_sampler: u32,
}

/// The flat record a vertex-attribute override translates to: a one-to-one
/// projection of the entry's fields into primitive encodings.
pub open spec fn spec_vertex_attribute_raw(
    loc: VertexAttributeLocation,
    attr: VertexAttribute,
) -> RawVertexAttribute {
    RawVertexAttribute {
        location: loc.0,
        msl_buffer: attr.buffer_id,
        msl_offset: attr.offset,
        msl_stride: attr.stride,
        per_instance: attr.step is Instance,
        format: spec_format_raw(attr.format),
        builtin: spec_built_in_option_raw(attr.built_in),
    }
}

/// The flat record a resource-binding override translates to: a one-to-one
/// projection of the entry's fields into primitive encodings.
pub open spec fn spec_resource_binding_raw(
    loc: ResourceBindingLocation,
    res: ResourceBinding,
) -> RawResourceBinding {
    RawResourceBinding {
        stage: execution_model_raw(loc.stage),
        desc_set: loc.desc_set,
        binding: loc.binding,
        msl_buffer: res.buffer_id,
        msl_texture: res.texture_id,
        msl_sampler: res.sampler_id,
    }
}

/// Storage format of a vertex attribute.
#[derive(Debug, Copy, Clone, Hash, Eq, PartialEq, Ord, PartialOrd, Structural)]
pub enum Format {
    Other,
    Uint8,
    Uint16,
}

/// The flat encoding of a vertex-attribute storage format: three fixed
/// sentinel integers.
pub open spec fn spec_format_raw(f: Format) -> u32 {
    match f {
        Format::Other => 0,
        Format::Uint8 => 1,
        Format::Uint16 => 2,
    }
}

impl Format {
    /// Translate the storage format into its flat encoding.
    pub fn as_raw(&self) -> (r: u32)
        ensures
            r == spec_format_raw(*self),
    {
        match self {
            Format::Other => 0,
            Format::Uint8 => 1,
            Format::Uint16 => 2,
        }
    }
}

/// Target platform the generated source is meant for.
#[allow(non_snake_case, non_camel_case_types)]
#[derive(Copy, Clone, Debug, Hash, Eq, PartialEq, Structural)]
pub enum Platform {
    iOS,
    macOS,
}

/// The flat encoding of a target platform.
pub open spec fn spec_platform_raw(p: Platform) -> u8 {
    match p {
        Platform::iOS => 0,
        Platform::macOS => 1,
    }
}

impl Platform {
    /// Translate the platform into its flat encoding.
    pub fn as_raw(self) -> (r: u8)
        ensures
            r == spec_platform_raw(self),
    {
        match self {
            Platform::iOS => 0,
            Platform::macOS => 1,
        }
    }
}

/// Shading-language version the generated source must conform to.
#[derive(Copy, Clone, Debug, Hash, Eq, PartialEq, Structural)]
pub enum Version {
    V1_0,
    V1_1,
    V1_2,
    V2_0,
    V2_1,
}

/// Major component of a version.
pub open spec fn spec_version_major(v: Version) -> u32 {
    match v {
        Version::V1_0 => 1,
        Version::V1_1 => 1,
        Version::V1_2 => 1,
        Version::V2_0 => 2,
        Version::V2_1 => 2,
    }
}

/// Minor component of a version.
pub open spec fn spec_version_minor(v: Version) -> u32 {
    match v {
        Version::V1_0 => 0,
        Version::V1_1 => 1,
        Version::V1_2 => 2,
        Version::V2_0 => 0,
        Version::V2_1 => 1,
    }
}

/// Patch component of a version. Every published version of the language this
/// layer knows has patch zero.
pub open spec fn spec_version_patch(v: Version) -> u32 {
    match v {
        Version::V1_0 => 0,
        Version::V1_1 => 0,
        Version::V1_2 => 0,
        Version::V2_0 => 0,
        Version::V2_1 => 0,
    }
}

/// The flat encoding of a version: a single base-100 integer.
pub open spec fn spec_version_raw(v: Version) -> u32 {
    (10000 * spec_version_major(v) + 100 * spec_version_minor(v) + spec_version_patch(v)) as u32
}

impl Version {
    /// Translate the version into its flat base-100 encoding:
    /// `major * 10000 + minor * 100 + patch`.
    pub fn as_raw(self) -> (r: u32)
        ensures
            r == spec_version_raw(self),
            r == 10000 * spec_version_major(self) + 100 * spec_version_minor(self)
                + spec_version_patch(self),
    {
        match self {
            Version::V1_0 => 10000,
            Version::V1_1 => 10100,
            Version::V1_2 => 10200,
            Version::V2_0 => 20000,
            Version::V2_1 => 20100,
        }
    }
}

/// Vertex-stage compiler options.
#[derive(Debug, Copy, Clone, Hash, Eq, PartialEq, Structural)]
pub struct CompilerVertexOptions {
    /// Whether the Y axis of the clip space is inverted.
    pub invert_y: bool,
    /// Whether the clip-space transform is applied in the shader.
    pub transform_clip_space: bool,
}

/// The default vertex options: both flags off.
pub open spec fn spec_default_vertex_options() -> CompilerVertexOptions {
    CompilerVertexOptions { invert_y: false, transform_clip_space: false }
}

impl Default for CompilerVertexOptions {
    /// Both flags default to false.
    fn default() -> (r: Self)
        ensures
            r == spec_default_vertex_options(),
    {
        CompilerVertexOptions { invert_y: false, transform_clip_space: false }
    }
}

/// Flat options record, scalar fields only, laid out as the native compiler
/// expects it. Note the stored rasterization flag is the negation of the
/// semantic one: the native layer speaks of rasterization being disabled.
#[derive(Debug, Copy, Clone, Hash, Eq, PartialEq, Structural)]
pub struct RawCompilerOptions {
    pub vertex_invert_y: bool,
    pub vertex_transform_clip_space: bool,
    pub platform: u8,
    pub version: u32,
    pub enable_point_size_builtin: bool,
    pub disable_rasterization: bool,
    pub swizzle_buffer_index: u32,
    pub indirect_params_buffer_index: u32,
    pub shader_output_buffer_index: u32,
    pub shader_patch_output_buffer_index: u32,
    pub shader_tess_factor_buffer_index: u32,
    pub buffer_size_buffer_index: u32,
    pub capture_output_to_buffer: bool,
    pub swizzle_texture_samples: bool,
    pub tess_domain_origin_lower_left: bool,
    pub argument_buffers: bool,
    pub pad_fragment_output_components: bool,
}

/// Compiler options: the single source of truth for all tunable behavior,
/// plus the two override tables.
#[derive(Debug, Clone, Hash, Eq, PartialEq)]
pub struct CompilerOptions {
    /// The target platform.
    pub platform: Platform,
    /// The target shading-language version.
    pub version: Version,
    /// Vertex compiler options.
    pub vertex: CompilerVertexOptions,
    /// The buffer index to use for swizzle.
    pub swizzle_buffer_index: u32,
    /// The buffer index to use for indirect params.
    pub indirect_params_buffer_index: u32,
    /// The buffer index to use for output.
    pub output_buffer_index: u32,
    /// The buffer index to use for patch output.
    pub patch_output_buffer_index: u32,
    /// The buffer index to use for tessellation factor.
    pub tessellation_factor_buffer_index: u32,
    /// The buffer index to use for buffer size.
    pub buffer_size_buffer_index: u32,
    /// Whether the built-in point size should be enabled.
    pub enable_point_size_builtin: bool,
    /// Whether rasterization should be enabled.
    pub enable_rasterization: bool,
    /// Whether to capture output to buffer.
    pub capture_output_to_buffer: bool,
    /// Whether to swizzle texture samples.
    pub swizzle_texture_samples: bool,
    /// Whether to place the origin of tessellation domain shaders in the lower left.
    pub tessellation_domain_origin_lower_left: bool,
    /// Whether to enable use of argument buffers.
    pub enable_argument_buffers: bool,
    /// Whether to pad fragment output to have at least the number of components
    /// of the render pass.
    pub pad_fragment_output_components: bool,
    /// Resource-binding overrides.
    pub resource_binding_overrides: ResourceBindingOverrides,
    /// Vertex-attribute overrides.
    pub vertex_attribute_overrides: VertexAttributeOverrides,
}

/// The flat record a set of options translates to. Every scalar is a direct
/// projection but the rasterization flag, which is inverted on the wire.
pub open spec fn spec_raw_options(o: CompilerOptions) -> RawCompilerOptions {
    RawCompilerOptions {
        vertex_invert_y: o.vertex.invert_y,
        vertex_transform_clip_space: o.vertex.transform_clip_space,
        platform: spec_platform_raw(o.platform),
        version: spec_version_raw(o.version),
        enable_point_size_builtin: o.enable_point_size_builtin,
        disable_rasterization: !o.enable_rasterization,
        swizzle_buffer_index: o.swizzle_buffer_index,
        indirect_params_buffer_index: o.indirect_params_buffer_index,
        shader_output_buffer_index: o.output_buffer_index,
        shader_patch_output_buffer_index: o.patch_output_buffer_index,
        shader_tess_factor_buffer_index: o.tessellation_factor_buffer_index,
        buffer_size_buffer_index: o.buffer_size_buffer_index,
        capture_output_to_buffer: o.capture_output_to_buffer,
        swizzle_texture_samples: o.swizzle_texture_samples,
        tess_domain_origin_lower_left: o.tessellation_domain_origin_lower_left,
        argument_buffers: o.enable_argument_buffers,
        pad_fragment_output_components: o.pad_fragment_output_components,
    }
}

/// The documented defaults: desktop platform, version 1.2, the six buffer
/// indices 30 down to 25, point size and rasterization on, every other flag
/// off, both override tables empty.
pub open spec fn spec_is_default_options(o: CompilerOptions) -> bool {
    &&& o.platform == Platform::macOS
    &&& o.version == Version::V1_2
    &&& o.vertex == spec_default_vertex_options()
    &&& o.swizzle_buffer_index == 30
    &&& o.indirect_params_buffer_index == 29
    &&& o.output_buffer_index == 28
    &&& o.patch_output_buffer_index == 27
    &&& o.tessellation_factor_buffer_index == 26
    &&& o.buffer_size_buffer_index == 25
    &&& o.enable_point_size_builtin == true
    &&& o.enable_rasterization == true
    &&& o.capture_output_to_buffer == false
    &&& o.swizzle_texture_samples == false
    &&& o.tessellation_domain_origin_lower_left == false
    &&& o.enable_argument_buffers == false
    &&& o.pad_fragment_output_components == false
    &&& o.resource_binding_overrides.wf()
    &&& o.resource_binding_overrides.spec_len() == 0
    &&& o.vertex_attribute_overrides.wf()
    &&& o.vertex_attribute_overrides.spec_len() == 0
}

impl CompilerOptions {
    /// Translate the options into the flat record the native compiler
    /// consumes. The scalar fields are projected one to one; the semantic
    /// "rasterization enabled" flag is stored inverted, as "disabled".
    pub fn as_raw(&self) -> (r: RawCompilerOptions)
        ensures
            r == spec_raw_options(*self),
            r.disable_rasterization == !self.enable_rasterization,
    {
        RawCompilerOptions {
            vertex_invert_y: self.vertex.invert_y,
            vertex_transform_clip_space: self.vertex.transform_clip_space,
            platform: self.platform.as_raw(),
            version: self.version.as_raw(),
            enable_point_size_builtin: self.enable_point_size_builtin,
            disable_rasterization: !self.enable_rasterization,
            swizzle_buffer_index: self.swizzle_buffer_index,
            indirect_params_buffer_index: self.indirect_params_buffer_index,
            shader_output_buffer_index: self.output_buffer_index,
            shader_patch_output_buffer_index: self.patch_output_buffer_index,
            shader_tess_factor_buffer_index: self.tessellation_factor_buffer_index,
            buffer_size_buffer_index: self.buffer_size_buffer_index,
            capture_output_to_buffer: self.capture_output_to_buffer,
            swizzle_texture_samples: self.swizzle_texture_samples,
            tess_domain_origin_lower_left: self.tessellation_domain_origin_lower_left,
            argument_buffers: self.enable_argument_buffers,
            pad_fragment_output_components: self.pad_fragment_output_components,
        }
    }
}

impl Default for CompilerOptions {
    /// The documented defaults, with both override tables empty.
    fn default() -> (r: Self)
        ensures
            spec_is_default_options(r),
    {
        CompilerOptions {
            platform: Platform::macOS,
            version: Version::V1_2,
            vertex: CompilerVertexOptions::default(),
            swizzle_buffer_index: 30,
            indirect_params_buffer_index: 29,
            output_buffer_index: 28,
            patch_output_buffer_index: 27,
            tessellation_factor_buffer_index: 26,
            buffer_size_buffer_index: 25,
            enable_point_size_builtin: true,
            enable_rasterization: true,
            capture_output_to_buffer: false,
            swizzle_texture_samples: false,
            tessellation_domain_origin_lower_left: false,
            enable_argument_buffers: false,
            pad_fragment_output_components: false,
            resource_binding_overrides: ResourceBindingOverrides::new(),
            vertex_attribute_overrides: VertexAttributeOverrides::new(),
        }
    }
}

/// The per-session override caches: the two translated override arrays a
/// session re-submits on every compile call. A successful configure replaces
/// them wholesale; nothing else touches them.
#[derive(Debug)]
pub struct TargetData {
    vertex_attribute_overrides: Vec<RawVertexAttribute>,
    resource_binding_overrides: Vec<RawResourceBinding>,
}

impl TargetData {
    /// The cached flat vertex-attribute override records.
    pub closed spec fn vertex_overrides(self) -> Seq<RawVertexAttribute> {
        self.vertex_attribute_overrides@
    }

    /// The cached flat resource-binding override records.
    pub closed spec fn resource_overrides(self) -> Seq<RawResourceBinding> {
        self.resource_binding_overrides@
    }

    /// A fresh cache: both override arrays empty, as a session starts out.
    pub fn new() -> (r: Self)
        ensures
            r.vertex_overrides().len() == 0,
            r.resource_overrides().len() == 0,
    {
        TargetData {
            vertex_attribute_overrides: Vec::new(),
            resource_binding_overrides: Vec::new(),
        }
    }

    /// Decide the construct operation from the native parser's return code:
    /// code zero yields a session cache with both override arrays empty, any
    /// other code is a construction failure carrying that code.
    pub fn construct_result(code: u32) -> (r: Result<TargetData, ErrorCode>)
        ensures
            code == 0 ==> (r matches Ok(d) && d.vertex_overrides().len() == 0
                && d.resource_overrides().len() == 0),
            code != 0 ==> r == Err::<TargetData, ErrorCode>(ErrorCode::ConstructionError(code)),
    {
        if code == 0 {
            Ok(TargetData::new())
        } else {
            Err(ErrorCode::ConstructionError(code))
        }
    }

    /// Apply the outcome of submitting a flat options record. On success the
    /// cached override arrays are replaced by the tables' freshly translated
    /// records (the old arrays fully discarded, not merged); on failure the
    /// caches are untouched and the native code is surfaced as a
    /// configuration error.
    pub fn apply_configure(&mut self, options: &CompilerOptions, code: u32) -> (r: Result<
        (),
        ErrorCode,
    >)
        requires
            options.vertex_attribute_overrides.wf(),
            options.resource_binding_overrides.wf(),
        ensures
            code == 0 ==> r == Ok::<(), ErrorCode>(()) && final(self).vertex_overrides()
                == options.vertex_attribute_overrides.records() && final(self).resource_overrides()
                == options.resource_binding_overrides.records(),
            code != 0 ==> r == Err::<(), ErrorCode>(ErrorCode::ConfigurationError(code))
                && *final(self) == *old(self),
    {
        if code == 0 {
            self.vertex_attribute_overrides = options.vertex_attribute_overrides.translate();
            self.resource_binding_overrides = options.resource_binding_overrides.translate();
            Ok(())
        } else {
            Err(ErrorCode::ConfigurationError(code))
        }
    }

    /// The vertex override records a compile call must submit: exactly the
    /// cached array, unchanged.
    pub fn vertex_override_records(&self) -> (r: &Vec<RawVertexAttribute>)
        ensures
            r@ == self.vertex_overrides(),
    {
        &self.vertex_attribute_overrides
    }

    /// The resource override records a compile call must submit: exactly the
    /// cached array, unchanged.
    pub fn resource_override_records(&self) -> (r: &Vec<RawResourceBinding>)
        ensures
            r@ == self.resource_overrides(),
    {
        &self.resource_binding_overrides
    }
}

/// Decide the compile operation from the native code generator's return code
/// and the decoded output: a nonzero code is a compilation failure carrying
/// that code; a zero code whose output did not decode as text is an encoding
/// failure; otherwise the decoded source is returned as is.
pub fn compile_result(code: u32, text: Option<String>) -> (r: Result<String, ErrorCode>)
    ensures
        code != 0 ==> r == Err::<String, ErrorCode>(ErrorCode::CompilationError(code)),
        code == 0 ==> (match text {
            Some(source) => r == Ok::<String, ErrorCode>(source),
            None => r == Err::<String, ErrorCode>(ErrorCode::EncodingError),
        }),
{
    if code != 0 {
        Err(ErrorCode::CompilationError(code))
    } else {
        match text {
            Some(source) => Ok(source),
            None => Err(ErrorCode::EncodingError),
        }
    }
}

/// Decide the rasterization query from the native return code and the queried
/// flag: the effective state is the logical negation of the reported
/// "disabled" flag; a failed query surfaces the native code.
pub fn rasterization_enabled_result(code: u32, disabled: bool) -> (r: Result<bool, ErrorCode>)
    ensures
        code == 0 ==> r == Ok::<bool, ErrorCode>(!disabled),
        code != 0 ==> r == Err::<bool, ErrorCode>(ErrorCode::QueryError(code)),
{
    if code == 0 {
        Ok(!disabled)
    } else {
        Err(ErrorCode::QueryError(code))
    }
}

/// Default options translate to a flat record with rasterization *not*
/// disabled and the point-size built-in enabled, and both override tables are
/// empty, so both translated override arrays are too.
pub proof fn lemma_default_options_translation(o: CompilerOptions)
    requires
        spec_is_default_options(o),
    ensures
        spec_raw_options(o).disable_rasterization == false,
        spec_raw_options(o).enable_point_size_builtin == true,
        o.vertex_attribute_overrides.records().len() == 0,
        o.resource_binding_overrides.records().len() == 0,
{
}

/// Translation is a pure function of the options: configuring twice with
/// identical options yields identical flat records and identical override
/// arrays.
pub proof fn lemma_configure_idempotent(a: CompilerOptions, b: CompilerOptions)
    requires
        a == b,
    ensures
        spec_raw_options(a) == spec_raw_options(b),
        a.vertex_attribute_overrides.records() == b.vertex_attribute_overrides.records(),
        a.resource_binding_overrides.records() == b.resource_binding_overrides.records(),
{
}

/// Round trip of the rasterization flag: the flat record stores the negation
/// of the semantic flag, and the query decision negates what the native layer
/// reports back, so a query after a successful configure recovers exactly the
/// flag that was set.
pub proof fn lemma_rasterization_round_trip(o: CompilerOptions)
    ensures
        spec_raw_options(o).disable_rasterization == !o.enable_rasterization,
        !spec_raw_options(o).disable_rasterization == o.enable_rasterization,
{
}

} // verus!
