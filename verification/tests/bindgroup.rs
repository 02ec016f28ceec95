use qbezier::bindgroup::{
    attach_binding, BindGroupBuilder, BindingType, BufferBindingType, LayoutEntry,
    SamplerBindingType, TextureSampleType, TextureViewDimension, STAGE_COMPUTE, STAGE_FRAGMENT,
    STAGE_VERTEX,
};

#[test]
fn stage_bits_are_those_of_the_gpu_library() {
    assert_eq!(STAGE_VERTEX, wgpu::ShaderStages::VERTEX.bits());
    assert_eq!(STAGE_FRAGMENT, wgpu::ShaderStages::FRAGMENT.bits());
    assert_eq!(STAGE_COMPUTE, wgpu::ShaderStages::COMPUTE.bits());
}

#[test]
fn an_empty_builder_builds_an_empty_layout() {
    let (label, entries) = BindGroupBuilder::new("empty".to_string()).build();
    assert_eq!(label, "empty");
    assert!(entries.is_empty());
}

#[test]
fn the_compute_layout_has_three_storage_buffers() {
    let (label, entries) = BindGroupBuilder::new("Compute bind group layout".to_string())
        .add_storage_buffer(STAGE_COMPUTE, true, None)
        .add_storage_buffer(STAGE_COMPUTE, false, None)
        .add_storage_buffer(STAGE_COMPUTE, false, None)
        .build();
    assert_eq!(label, "Compute bind group layout");
    let storage = |binding: u32, read_only: bool| LayoutEntry {
        binding,
        visibility: 4,
        ty: BindingType::Buffer {
            ty: BufferBindingType::Storage { read_only },
            has_dynamic_offset: false,
            min_binding_size: None,
        },
    };
    assert_eq!(entries, vec![storage(0, true), storage(1, false), storage(2, false)]);
}

#[test]
fn entries_are_numbered_in_the_order_added() {
    let (_, entries) = BindGroupBuilder::new("mixed".to_string())
        .add_uniform_buffer(STAGE_VERTEX, Some(64))
        .add_sampler(STAGE_FRAGMENT, SamplerBindingType::Comparison)
        .add_texture(STAGE_FRAGMENT, TextureSampleType::Depth, TextureViewDimension::Cube, true)
        .add_sampler_filterable(STAGE_FRAGMENT)
        .add_texture_float_filterable_d2(STAGE_VERTEX | STAGE_FRAGMENT, false)
        .build();
    assert_eq!(
        entries,
        vec![
            LayoutEntry {
                binding: 0,
                visibility: 1,
                ty: BindingType::Buffer {
                    ty: BufferBindingType::Uniform,
                    has_dynamic_offset: false,
                    min_binding_size: Some(64),
                },
            },
            LayoutEntry {
                binding: 1,
                visibility: 2,
                ty: BindingType::Sampler(SamplerBindingType::Comparison),
            },
            LayoutEntry {
                binding: 2,
                visibility: 2,
                ty: BindingType::Texture {
                    sample_type: TextureSampleType::Depth,
                    view_dimension: TextureViewDimension::Cube,
                    multisampled: true,
                },
            },
            LayoutEntry {
                binding: 3,
                visibility: 2,
                ty: BindingType::Sampler(SamplerBindingType::Filtering),
            },
            LayoutEntry {
                binding: 4,
                visibility: 3,
                ty: BindingType::Texture {
                    sample_type: TextureSampleType::Float { filterable: true },
                    view_dimension: TextureViewDimension::D2,
                    multisampled: false,
                },
            },
        ]
    );
    for (i, entry) in entries.iter().enumerate() {
        assert_eq!(entry.binding as usize, i);
    }
}

#[test]
fn resources_attach_at_their_place() {
    assert_eq!(attach_binding(0), 0);
    assert_eq!(attach_binding(2), 2);
}
