use matono_client::gfx::shader::{ShaderEntrypoints, ShaderModuleDescriptor, State, VertexShaderKey};
use matono_client::gfx::shader_attributes::{
    find_vertex_attributes, vertex_attr_array, vertex_stride, VertexAttribute, VertexFormat,
};

fn attribute(format: VertexFormat, offset: u64, shader_location: u32) -> VertexAttribute {
    VertexAttribute { format, offset, shader_location }
}

#[test]
fn format_sizes() {
    assert_eq!(VertexFormat::Float32x2.size(), 8);
    assert_eq!(VertexFormat::Float32x3.size(), 12);
    assert_eq!(VertexFormat::Float32x4.size(), 16);
    assert_eq!(VertexFormat::Uint32x4.size(), 16);
}

#[test]
fn passthrough_layout() {
    let attributes = find_vertex_attributes("data/shaders/passthrough.wgsl", "vs_passthrough").unwrap();
    assert_eq!(
        attributes,
        vec![attribute(VertexFormat::Float32x3, 0, 0), attribute(VertexFormat::Float32x4, 12, 1)]
    );
    assert_eq!(vertex_stride(&attributes), 28);
}

#[test]
fn gltf_layout() {
    let attributes = find_vertex_attributes("data/shaders/gltf.wgsl", "vs").unwrap();
    assert_eq!(
        attributes,
        vec![
            attribute(VertexFormat::Float32x3, 0, 0),
            attribute(VertexFormat::Float32x3, 12, 1),
            attribute(VertexFormat::Float32x4, 24, 2),
            attribute(VertexFormat::Float32x2, 40, 3),
            attribute(VertexFormat::Float32x2, 48, 4),
            attribute(VertexFormat::Float32x4, 56, 5),
            attribute(VertexFormat::Uint32x4, 72, 6),
            attribute(VertexFormat::Float32x4, 88, 7),
        ]
    );
    assert_eq!(vertex_stride(&attributes), 104);
}

#[test]
fn unknown_pairs_have_no_layout() {
    assert_eq!(find_vertex_attributes("data/shaders/passthrough.wgsl", "vs"), None);
    assert_eq!(find_vertex_attributes("data/shaders/gltf.wgsl", "vs_passthrough"), None);
    assert_eq!(find_vertex_attributes("data/shaders/gltf.wgsl", "ps"), None);
    assert_eq!(find_vertex_attributes("data/shaders/gltf.wgsl", ""), None);
    assert_eq!(find_vertex_attributes("", "vs"), None);
    assert_eq!(find_vertex_attributes("data/shaders/gltf.wgs", "vs"), None);
    assert_eq!(find_vertex_attributes("data/shaders/gltf.wgsl ", "vs"), None);
    assert_eq!(find_vertex_attributes("Data/shaders/gltf.wgsl", "vs"), None);
    assert_eq!(find_vertex_attributes("data/shaders/gltf.wgsl", "VS"), None);
}

#[test]
fn attributes_are_packed_in_order() {
    assert_eq!(vertex_attr_array(&vec![]), vec![]);
    assert_eq!(vertex_stride(&vec![]), 0);
    let attributes = vertex_attr_array(&vec![
        VertexFormat::Uint32x4,
        VertexFormat::Float32x2,
        VertexFormat::Float32x2,
        VertexFormat::Float32x3,
    ]);
    assert_eq!(
        attributes,
        vec![
            attribute(VertexFormat::Uint32x4, 0, 0),
            attribute(VertexFormat::Float32x2, 16, 1),
            attribute(VertexFormat::Float32x2, 24, 2),
            attribute(VertexFormat::Float32x3, 32, 3),
        ]
    );
    assert_eq!(vertex_stride(&attributes), 44);
    let many = vertex_attr_array(&vec![VertexFormat::Float32x4; 32]);
    assert_eq!(many.len(), 32);
    assert_eq!(many[31], attribute(VertexFormat::Float32x4, 496, 31));
    assert_eq!(vertex_stride(&many), 512);
}

#[test]
fn stride_counts_formats_not_offsets() {
    let attributes = vec![
        attribute(VertexFormat::Float32x2, 100, 3),
        attribute(VertexFormat::Float32x3, 0, 0),
    ];
    assert_eq!(vertex_stride(&attributes), 20);
}

#[test]
fn registered_vertex_shader_has_its_layout() {
    let mut state: State<u32> = State::new();
    state
        .add_shader_module(
            ShaderModuleDescriptor::new("data/shaders/gltf.wgsl".to_string(), vec![]),
            &[ShaderEntrypoints::VS((VertexShaderKey::Other(3), "vs"))],
        )
        .unwrap();
    assert_eq!(state.find_vertex_shader_stride(VertexShaderKey::Other(3)), Some(104));
    assert_eq!(state.find_vertex_shader_stride(VertexShaderKey::GltfVS), None);
    assert_eq!(state.find_vertex_shader_stride(VertexShaderKey::Other(2)), None);
    let layout = state.find_vertex_buffer_layout(VertexShaderKey::Other(3)).unwrap();
    assert_eq!(layout.stride(), 104);
    assert_eq!(layout.attributes().len(), 8);
    assert_eq!(layout.attributes()[6], attribute(VertexFormat::Uint32x4, 72, 6));
    assert_eq!(
        layout.attributes(),
        &find_vertex_attributes("data/shaders/gltf.wgsl", "vs").unwrap()
    );

    // Registering the key again with another shader replaces the layout.
    state
        .add_shader_module(
            ShaderModuleDescriptor::new("data/shaders/passthrough.wgsl".to_string(), vec![]),
            &[ShaderEntrypoints::VS((VertexShaderKey::Other(3), "vs_passthrough"))],
        )
        .unwrap();
    assert_eq!(state.find_vertex_shader_stride(VertexShaderKey::Other(3)), Some(28));
    assert_eq!(state.find_vertex_buffer_layout(VertexShaderKey::Other(3)).unwrap().attributes().len(), 2);
}
