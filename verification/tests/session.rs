use spirv_cross::ErrorCode;
use spirv_cross::msl::CompilerOptions;
use spirv_cross::msl::TargetData;
use spirv_cross::msl::VertexAttribute;
use spirv_cross::msl::VertexAttributeLocation;
use spirv_cross::msl::compile_result;
use spirv_cross::msl::rasterization_enabled_result;
use spirv_cross::spirv::Module;
use spirv_cross::spirv::VertexAttributeStep;

#[test]
fn construct_succeeds_with_empty_caches() {
    let data = TargetData::construct_result(0).unwrap();
    assert!(data.vertex_override_records().is_empty());
    assert!(data.resource_override_records().is_empty());
}

#[test]
fn rejected_ir_yields_construction_error() {
    let result = TargetData::construct_result(2);
    assert_eq!(result.unwrap_err(), ErrorCode::ConstructionError(2));
}

#[test]
fn module_wraps_the_word_stream() {
    let words: Vec<u32> = vec![0x0723_0203, 0x0001_0000];
    let module = Module::from_words(&words);
    assert_eq!(module.words, &words[..]);
}

#[test]
fn successful_configure_replaces_the_caches() {
    let mut data = TargetData::new();
    let mut options = CompilerOptions::default();
    options.vertex_attribute_overrides.insert(
        VertexAttributeLocation(1),
        VertexAttribute {
            buffer_id: 2,
            offset: 0,
            stride: 4,
            step: VertexAttributeStep::Vertex,
            format: spirv_cross::msl::Format::Other,
            built_in: None,
        },
    );
    assert_eq!(data.apply_configure(&options, 0), Ok(()));
    assert_eq!(data.vertex_override_records().len(), 1);
    assert_eq!(data.vertex_override_records()[0].location, 1);

    // a later successful configure discards the old arrays wholesale
    let fresh = CompilerOptions::default();
    assert_eq!(data.apply_configure(&fresh, 0), Ok(()));
    assert!(data.vertex_override_records().is_empty());
    assert!(data.resource_override_records().is_empty());
}

#[test]
fn failed_configure_leaves_the_caches_untouched() {
    let mut data = TargetData::new();
    let mut options = CompilerOptions::default();
    options.vertex_attribute_overrides.insert(
        VertexAttributeLocation(1),
        VertexAttribute {
            buffer_id: 2,
            offset: 0,
            stride: 4,
            step: VertexAttributeStep::Vertex,
            format: spirv_cross::msl::Format::Other,
            built_in: None,
        },
    );
    assert_eq!(data.apply_configure(&options, 0), Ok(()));
    let result = data.apply_configure(&CompilerOptions::default(), 3);
    assert_eq!(result, Err(ErrorCode::ConfigurationError(3)));
    assert_eq!(data.vertex_override_records().len(), 1);
}

#[test]
fn configure_twice_with_identical_options_is_idempotent() {
    let mut options = CompilerOptions::default();
    options.enable_argument_buffers = true;
    options.vertex_attribute_overrides.insert(
        VertexAttributeLocation(6),
        VertexAttribute {
            buffer_id: 1,
            offset: 8,
            stride: 24,
            step: VertexAttributeStep::Instance,
            format: spirv_cross::msl::Format::Uint8,
            built_in: None,
        },
    );
    let first_raw = options.as_raw();
    let second_raw = options.as_raw();
    assert_eq!(first_raw, second_raw);

    let mut first_data = TargetData::new();
    let mut second_data = TargetData::new();
    assert_eq!(first_data.apply_configure(&options, 0), Ok(()));
    assert_eq!(second_data.apply_configure(&options, 0), Ok(()));
    assert_eq!(first_data.vertex_override_records(), second_data.vertex_override_records());
    assert_eq!(first_data.resource_override_records(), second_data.resource_override_records());
}

#[test]
fn compile_outcomes_map_to_the_error_taxonomy() {
    let ok = compile_result(0, Some(String::from("fragment float4 main0()")));
    assert_eq!(ok, Ok(String::from("fragment float4 main0()")));
    let failed = compile_result(7, None);
    assert_eq!(failed, Err(ErrorCode::CompilationError(7)));
    let undecodable = compile_result(0, None);
    assert_eq!(undecodable, Err(ErrorCode::EncodingError));
}

#[test]
fn rasterization_query_round_trips_the_configured_flag() {
    let mut options = CompilerOptions::default();
    options.enable_rasterization = false;
    let disabled_on_wire = options.as_raw().disable_rasterization;
    assert_eq!(rasterization_enabled_result(0, disabled_on_wire), Ok(false));

    options.enable_rasterization = true;
    let disabled_on_wire = options.as_raw().disable_rasterization;
    assert_eq!(rasterization_enabled_result(0, disabled_on_wire), Ok(true));

    assert_eq!(rasterization_enabled_result(5, false), Err(ErrorCode::QueryError(5)));
}
