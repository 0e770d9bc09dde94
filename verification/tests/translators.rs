use spirv_cross::msl::CompilerOptions;
use spirv_cross::msl::Format;
use spirv_cross::msl::Platform;
use spirv_cross::msl::Version;
use spirv_cross::spirv::BUILT_IN_NONE;
use spirv_cross::spirv::BuiltIn;
use spirv_cross::spirv::ExecutionModel;
use spirv_cross::spirv::built_in_as_raw;

#[test]
fn version_encodings_are_base_100() {
    assert_eq!(Version::V1_0.as_raw(), 10000);
    assert_eq!(Version::V1_1.as_raw(), 10100);
    assert_eq!(Version::V1_2.as_raw(), 10200);
    assert_eq!(Version::V2_0.as_raw(), 20000);
    assert_eq!(Version::V2_1.as_raw(), 20100);
}

#[test]
fn format_encodings_are_fixed_sentinels() {
    assert_eq!(Format::Other.as_raw(), 0);
    assert_eq!(Format::Uint8.as_raw(), 1);
    assert_eq!(Format::Uint16.as_raw(), 2);
}

#[test]
fn platform_encodings() {
    assert_eq!(Platform::iOS.as_raw(), 0);
    assert_eq!(Platform::macOS.as_raw(), 1);
}

#[test]
fn execution_model_encodings() {
    assert_eq!(ExecutionModel::Vertex.as_raw(), 0);
    assert_eq!(ExecutionModel::TessellationControl.as_raw(), 1);
    assert_eq!(ExecutionModel::TessellationEvaluation.as_raw(), 2);
    assert_eq!(ExecutionModel::Geometry.as_raw(), 3);
    assert_eq!(ExecutionModel::Fragment.as_raw(), 4);
    assert_eq!(ExecutionModel::GlCompute.as_raw(), 5);
    assert_eq!(ExecutionModel::Kernel.as_raw(), 6);
}

#[test]
fn built_in_encodings() {
    assert_eq!(built_in_as_raw(None), BUILT_IN_NONE);
    assert_eq!(built_in_as_raw(Some(BuiltIn::Position)), 0);
    assert_eq!(built_in_as_raw(Some(BuiltIn::PointSize)), 1);
    assert_eq!(built_in_as_raw(Some(BuiltIn::ClipDistance)), 3);
}

#[test]
fn default_options_translate_to_documented_flat_record() {
    let options = CompilerOptions::default();
    let raw = options.as_raw();
    assert_eq!(raw.platform, 1);
    assert_eq!(raw.version, 10200);
    assert!(!raw.vertex_invert_y);
    assert!(!raw.vertex_transform_clip_space);
    assert!(raw.enable_point_size_builtin);
    assert!(!raw.disable_rasterization);
    assert_eq!(raw.swizzle_buffer_index, 30);
    assert_eq!(raw.indirect_params_buffer_index, 29);
    assert_eq!(raw.shader_output_buffer_index, 28);
    assert_eq!(raw.shader_patch_output_buffer_index, 27);
    assert_eq!(raw.shader_tess_factor_buffer_index, 26);
    assert_eq!(raw.buffer_size_buffer_index, 25);
    assert!(!raw.capture_output_to_buffer);
    assert!(!raw.swizzle_texture_samples);
    assert!(!raw.tess_domain_origin_lower_left);
    assert!(!raw.argument_buffers);
    assert!(!raw.pad_fragment_output_components);
    assert_eq!(options.vertex_attribute_overrides.translate().len(), 0);
    assert_eq!(options.resource_binding_overrides.translate().len(), 0);
}

#[test]
fn rasterization_flag_is_inverted_on_the_wire() {
    let mut options = CompilerOptions::default();
    options.enable_rasterization = false;
    assert!(options.as_raw().disable_rasterization);
    options.enable_rasterization = true;
    assert!(!options.as_raw().disable_rasterization);
}
