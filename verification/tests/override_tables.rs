use spirv_cross::msl::ResourceBinding;
use spirv_cross::msl::ResourceBindingLocation;
use spirv_cross::msl::VertexAttribute;
use spirv_cross::msl::VertexAttributeLocation;
use spirv_cross::overrides::ResourceBindingOverrides;
use spirv_cross::overrides::VertexAttributeOverrides;
use spirv_cross::spirv::ExecutionModel;
use spirv_cross::spirv::VertexAttributeStep;

fn attribute(buffer_id: u32) -> VertexAttribute {
    VertexAttribute {
        buffer_id,
        offset: 0,
        stride: 16,
        step: VertexAttributeStep::Vertex,
        format: spirv_cross::msl::Format::Other,
        built_in: None,
    }
}

fn binding(buffer_id: u32) -> ResourceBinding {
    ResourceBinding { buffer_id, texture_id: 7, sampler_id: 9 }
}

#[test]
fn vertex_reinsert_replaces_without_growing() {
    let mut table = VertexAttributeOverrides::new();
    table.insert(VertexAttributeLocation(4), attribute(1));
    assert_eq!(table.len(), 1);
    table.insert(VertexAttributeLocation(4), attribute(2));
    assert_eq!(table.len(), 1);
    let flat = table.translate();
    assert_eq!(flat.len(), 1);
    assert_eq!(flat[0].location, 4);
    assert_eq!(flat[0].msl_buffer, 2);
}

#[test]
fn vertex_translate_is_ascending_and_complete() {
    let mut table = VertexAttributeOverrides::new();
    table.insert(VertexAttributeLocation(9), attribute(90));
    table.insert(VertexAttributeLocation(2), attribute(20));
    table.insert(VertexAttributeLocation(5), attribute(50));
    assert_eq!(table.len(), 3);
    let flat = table.translate();
    assert_eq!(flat.len(), 3);
    assert_eq!(flat[0].location, 2);
    assert_eq!(flat[1].location, 5);
    assert_eq!(flat[2].location, 9);
    assert_eq!(flat[0].msl_buffer, 20);
    assert_eq!(flat[1].msl_buffer, 50);
    assert_eq!(flat[2].msl_buffer, 90);
}

#[test]
fn vertex_record_projects_every_field() {
    let mut table = VertexAttributeOverrides::new();
    table.insert(
        VertexAttributeLocation(3),
        VertexAttribute {
            buffer_id: 11,
            offset: 12,
            stride: 13,
            step: VertexAttributeStep::Instance,
            format: spirv_cross::msl::Format::Uint16,
            built_in: Some(spirv_cross::spirv::BuiltIn::PointSize),
        },
    );
    let flat = table.translate();
    assert_eq!(flat.len(), 1);
    assert_eq!(flat[0].location, 3);
    assert_eq!(flat[0].msl_buffer, 11);
    assert_eq!(flat[0].msl_offset, 12);
    assert_eq!(flat[0].msl_stride, 13);
    assert!(flat[0].per_instance);
    assert_eq!(flat[0].format, 2);
    assert_eq!(flat[0].builtin, 1);
}

#[test]
fn resource_reinsert_replaces_without_growing() {
    let loc = ResourceBindingLocation {
        stage: ExecutionModel::Fragment,
        desc_set: 1,
        binding: 2,
    };
    let mut table = ResourceBindingOverrides::new();
    table.insert(loc, binding(5));
    table.insert(loc, binding(6));
    assert_eq!(table.len(), 1);
    let flat = table.translate();
    assert_eq!(flat.len(), 1);
    assert_eq!(flat[0].msl_buffer, 6);
    assert_eq!(flat[0].msl_texture, 7);
    assert_eq!(flat[0].msl_sampler, 9);
    assert_eq!(flat[0].stage, 4);
    assert_eq!(flat[0].desc_set, 1);
    assert_eq!(flat[0].binding, 2);
}

#[test]
fn resource_translate_orders_by_stage_set_binding() {
    let mut table = ResourceBindingOverrides::new();
    let frag = ResourceBindingLocation {
        stage: ExecutionModel::Fragment,
        desc_set: 0,
        binding: 0,
    };
    let vert_high = ResourceBindingLocation {
        stage: ExecutionModel::Vertex,
        desc_set: 1,
        binding: 0,
    };
    let vert_low = ResourceBindingLocation {
        stage: ExecutionModel::Vertex,
        desc_set: 0,
        binding: 3,
    };
    table.insert(frag, binding(1));
    table.insert(vert_high, binding(2));
    table.insert(vert_low, binding(3));
    assert_eq!(table.len(), 3);
    let flat = table.translate();
    assert_eq!(flat.len(), 3);
    assert_eq!((flat[0].stage, flat[0].desc_set, flat[0].binding), (0, 0, 3));
    assert_eq!((flat[1].stage, flat[1].desc_set, flat[1].binding), (0, 1, 0));
    assert_eq!((flat[2].stage, flat[2].desc_set, flat[2].binding), (4, 0, 0));
    assert_eq!(flat[0].msl_buffer, 3);
    assert_eq!(flat[1].msl_buffer, 2);
    assert_eq!(flat[2].msl_buffer, 1);
}

#[test]
fn translate_is_reproducible_for_the_same_contents() {
    let mut table = VertexAttributeOverrides::new();
    table.insert(VertexAttributeLocation(8), attribute(80));
    table.insert(VertexAttributeLocation(1), attribute(10));
    let first = table.translate();
    let second = table.translate();
    assert_eq!(first, second);
}
